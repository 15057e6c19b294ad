//! Classification of a field as a constructor parameter or a defaulted field.
use vstd::prelude::*;

use crate::descriptor::{names_view, FieldDescriptor, FieldType};
use crate::wrapper::{is_nullable_wrapper, is_option_path, spec_is_nullable_wrapper};

verus! {

/// What becomes of a field in the generated constructor.
#[derive(Debug, PartialEq, Eq, Clone, Copy)]
pub enum Classification {
    /// The field is an argument of the constructor, moved into the record as given.
    Parameter,
    /// The field is left out of the arguments and set to its type's default value.
    Defaulted,
}

/// Why no constructor could be synthesized.
#[derive(Debug, PartialEq, Eq)]
pub enum SynthesisError {
    /// The named field carries both `required` and `default`.
    ConflictingDirectives { field: String },
    /// The named record does not consist of named fields.
    UnsupportedShape { record: String },
}

/// The field carries both directives, which contradict each other.
pub open spec fn conflicting(f: FieldDescriptor) -> bool {
    f.required && f.default
}

/// The classification of a field without conflicting directives, by priority:
/// `required`, then `default`, then the shape of its type.
pub open spec fn classification_of(f: FieldDescriptor) -> Classification {
    if f.required {
        Classification::Parameter
    } else if f.default {
        Classification::Defaulted
    } else if spec_is_nullable_wrapper(f.ty) {
        Classification::Defaulted
    } else {
        Classification::Parameter
    }
}

/// What classifying a field gives: a conflict error naming the field, or its classification.
pub open spec fn classification_result(f: FieldDescriptor) -> Result<
    Classification,
    SynthesisError,
> {
    if conflicting(f) {
        Err(SynthesisError::ConflictingDirectives { field: f.name })
    } else {
        Ok(classification_of(f))
    }
}

/// Classify one field, or report that its directives conflict.
pub fn classify(f: &FieldDescriptor) -> (r: Result<Classification, SynthesisError>)
    ensures
        r == classification_result(*f),
{
    if f.required && f.default {
        Err(SynthesisError::ConflictingDirectives { field: f.name.clone() })
    } else if f.required {
        Ok(Classification::Parameter)
    } else if f.default {
        Ok(Classification::Defaulted)
    } else if is_nullable_wrapper(&f.ty) {
        Ok(Classification::Defaulted)
    } else {
        Ok(Classification::Parameter)
    }
}

/// A field with no directive whose type does not name `Option` is a parameter.
pub proof fn lemma_plain_field_is_parameter(f: FieldDescriptor)
    requires
        !f.required,
        !f.default,
        !spec_is_nullable_wrapper(f.ty),
    ensures
        classification_result(f) == Ok::<Classification, SynthesisError>(
            Classification::Parameter,
        ),
{
}

/// A field with no directive whose type is any of the six spellings of
/// `Option` (bare `Option`; `core::option::Option` and `std::option::Option`,
/// each with and without a leading `::`) is defaulted.
pub proof fn lemma_option_field_is_defaulted(f: FieldDescriptor)
    requires
        !f.required,
        !f.default,
        f.ty matches FieldType::Path { leading_colon, segments } && ({
            let path = names_view(segments@);
            ||| !leading_colon && path =~= seq!["Option"@]
            ||| path =~= seq!["core"@, "option"@, "Option"@]
            ||| path =~= seq!["std"@, "option"@, "Option"@]
        }),
    ensures
        classification_result(f) == Ok::<Classification, SynthesisError>(
            Classification::Defaulted,
        ),
{
    if let FieldType::Path { leading_colon, segments } = f.ty {
        let path = names_view(segments@);
        assert(is_option_path(leading_colon, path));
    }
}

/// A field marked `required` alone is a parameter, whatever its type.
pub proof fn lemma_required_field_is_parameter(f: FieldDescriptor)
    requires
        f.required,
        !f.default,
    ensures
        classification_result(f) == Ok::<Classification, SynthesisError>(
            Classification::Parameter,
        ),
{
}

/// A field marked `default` alone is defaulted, whatever its type.
pub proof fn lemma_default_field_is_defaulted(f: FieldDescriptor)
    requires
        f.default,
        !f.required,
    ensures
        classification_result(f) == Ok::<Classification, SynthesisError>(
            Classification::Defaulted,
        ),
{
}

/// A field marked both `required` and `default` is not classified: it is a
/// conflict, reported with the field's name.
pub proof fn lemma_both_directives_conflict(f: FieldDescriptor)
    requires
        f.required,
        f.default,
    ensures
        classification_result(f) == Err::<Classification, SynthesisError>(
            SynthesisError::ConflictingDirectives { field: f.name },
        ),
{
}

} // verus!
