//! A compile-time builder generator: given the description of a data record
//! (named fields, positional fields, or none), it emits the source text of a
//! companion builder type, a factory method on the record, one setter per
//! field, and a fallible `build` method that assembles the record once every
//! field has been supplied.

pub mod builder_state;
pub mod decimal;
pub mod reader;
pub mod record;
pub mod synth;

pub use crate::builder_state::BuilderState;
pub use crate::decimal::decimal_string;
pub use crate::reader::derive_field_name;
pub use crate::reader::normalize;
pub use crate::record::DeriveError;
pub use crate::record::FieldShape;
pub use crate::record::NormalizedField;
pub use crate::record::RecordDescription;
pub use crate::synth::write_builder_declaration;
pub use crate::synth::write_builder_implementation;
pub use crate::synth::write_caller_implementation;
pub use crate::synth::write_declaration;
pub use crate::synth::write_default;
pub use crate::synth::write_initialisation;
pub use crate::synth::write_setter;
