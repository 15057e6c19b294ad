//! Recognition of the nullable wrapper type `Option<T>` by the shape of its path.
//!
//! The check is purely syntactic: an alias of `Option` is not recognized.
use vstd::prelude::*;

use crate::descriptor::{names_view, FieldType};

verus! {

/// A path names `Option`: either the bare name without a leading `::`, or
/// `core::option::Option` / `std::option::Option`, with or without a leading `::`.
pub open spec fn is_option_path(leading_colon: bool, path: Seq<Seq<char>>) -> bool {
    (!leading_colon && path.len() == 1 && path[0] == "Option"@) || (path.len() == 3 && (path[0]
        == "core"@ || path[0] == "std"@) && path[1] == "option"@ && path[2] == "Option"@)
}

/// The type is a path that names `Option`.
pub open spec fn spec_is_nullable_wrapper(ty: FieldType) -> bool {
    match ty {
        FieldType::Path { leading_colon, segments } => is_option_path(
            leading_colon,
            names_view(segments@),
        ),
        FieldType::Other => false,
    }
}

fn is_word(s: &String, word: &str) -> (r: bool)
    ensures
        r == (s@ == word@),
{
    let w = String::from_str(word);
    *s == w
}

/// Whether the type is one of the recognized spellings of `Option<T>`.
pub fn is_nullable_wrapper(ty: &FieldType) -> (r: bool)
    ensures
        r == spec_is_nullable_wrapper(*ty),
{
    match ty {
        FieldType::Path { leading_colon, segments } => {
            let n = segments.len();
            if !*leading_colon && n == 1 && is_word(&segments[0], "Option") {
                return true;
            }
            n == 3 && (is_word(&segments[0], "core") || is_word(&segments[0], "std")) && is_word(
                &segments[1],
                "option",
            ) && is_word(&segments[2], "Option")
        },
        FieldType::Other => false,
    }
}

} // verus!
