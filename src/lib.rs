//! Synthesis of minimal constructor functions for records with named fields.
//!
//! A front-end describes a record (its fields, their types and the
//! `required` / `default` directives on them) as a [`RecordDescriptor`];
//! [`synthesize`] turns it into a [`FunctionDescriptor`] that a back-end
//! renders as an associated function of the record.
pub mod descriptor;
pub mod wrapper;
pub mod classify;
pub mod synthesize;

pub use descriptor::{FieldDescriptor, FieldType, Visibility};
pub use wrapper::is_nullable_wrapper;
pub use classify::{classify, Classification, SynthesisError};
pub use synthesize::{
    synthesize, FieldInit, FieldValue, FunctionDescriptor, Parameter, RecordData, RecordDescriptor,
};
