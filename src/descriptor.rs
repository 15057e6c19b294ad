//! The descriptions handed to the synthesizer and handed back by it.
use vstd::prelude::*;

verus! {

/// The declared type of a field, as far as the synthesizer looks into it.
#[derive(Debug, PartialEq, Eq)]
pub enum FieldType {
    /// A path type such as `Option<u16>` or `::std::option::Option<T>`:
    /// whether it starts with `::`, and the names of its segments in order
    /// (generic arguments are not part of a segment's name).
    Path { leading_colon: bool, segments: Vec<String> },
    /// Any type that is not a path (a reference, a tuple, an array, ...).
    Other,
}

/// One named field of a record.
#[derive(Debug, PartialEq, Eq)]
pub struct FieldDescriptor {
    pub name: String,
    pub ty: FieldType,
    /// The field carries the `required` directive.
    pub required: bool,
    /// The field carries the `default` directive.
    pub default: bool,
}

/// How far an item is exposed.
#[derive(Debug, PartialEq, Eq)]
pub enum Visibility {
    /// No visibility keyword: private to the enclosing module.
    Inherited,
    /// `pub`.
    Public,
    /// `pub(in path)`, with the path's segments in order (`crate`, `super`, ...).
    Restricted { path: Vec<String> },
}

/// The names of a sequence of strings, as sequences of characters.
pub open spec fn names_view(names: Seq<String>) -> Seq<Seq<char>> {
    names.map_values(|s: String| s@)
}

} // verus!
