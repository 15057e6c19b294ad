//! Synthesis of the constructor function of a record.
use vstd::prelude::*;

use crate::classify::{
    classification_of, classify, conflicting, Classification, SynthesisError,
};
use crate::descriptor::{FieldDescriptor, FieldType, Visibility};

verus! {

/// What a record consists of.
#[derive(Debug, PartialEq, Eq)]
pub enum RecordData {
    /// Named fields, in declaration order.
    Named(Vec<FieldDescriptor>),
    /// Positional fields.
    Tuple,
    /// No fields at all.
    Unit,
    /// A sum type.
    Enum,
    /// A union.
    Union,
}

/// The declaration of a record, with the directives given on it.
#[derive(Debug, PartialEq, Eq)]
pub struct RecordDescriptor {
    pub visibility: Visibility,
    pub name: String,
    /// The record's generic parameters, as written, in order.
    pub generics: Vec<String>,
    pub data: RecordData,
    /// The `name` directive: the name of the constructor in place of `new`.
    pub name_override: Option<String>,
    /// The `visibility` directive: the constructor's visibility in place of the record's.
    pub visibility_override: Option<Visibility>,
}

/// One argument of the constructor.
#[derive(Debug, PartialEq, Eq)]
pub struct Parameter {
    pub name: String,
    pub ty: FieldType,
}

/// Where a field of the constructed record takes its value from.
#[derive(Debug, PartialEq, Eq, Clone, Copy)]
pub enum FieldValue {
    /// The constructor's argument of the same name.
    Argument,
    /// The default value of the field's type.
    Default,
}

/// One field of the record literal that the constructor returns.
#[derive(Debug, PartialEq, Eq)]
pub struct FieldInit {
    pub field: String,
    pub value: FieldValue,
}

/// The constructor: an associated function of the record `owner`, generic over
/// the same parameters, returning the record literal `body`.
#[derive(Debug, PartialEq, Eq)]
pub struct FunctionDescriptor {
    pub owner: String,
    pub generics: Vec<String>,
    pub name: String,
    pub visibility: Visibility,
    pub parameters: Vec<Parameter>,
    pub body: Vec<FieldInit>,
}

/// The field becomes an argument of the constructor.
pub open spec fn is_parameter(f: FieldDescriptor) -> bool {
    classification_of(f) == Classification::Parameter
}

/// The argument that a field becomes.
pub open spec fn parameter_of(f: FieldDescriptor) -> Parameter {
    Parameter { name: f.name, ty: f.ty }
}

/// The arguments of the constructor: the parameter fields, in declaration order.
pub open spec fn parameters_of(fields: Seq<FieldDescriptor>) -> Seq<Parameter>
    decreases fields.len(),
{
    if fields.len() == 0 {
        seq![]
    } else {
        let rest = parameters_of(fields.drop_last());
        if is_parameter(fields.last()) {
            rest.push(parameter_of(fields.last()))
        } else {
            rest
        }
    }
}

/// How the record literal sets a field.
pub open spec fn init_of(f: FieldDescriptor) -> FieldInit {
    FieldInit {
        field: f.name,
        value: if is_parameter(f) {
            FieldValue::Argument
        } else {
            FieldValue::Default
        },
    }
}

/// The record literal: every field, in declaration order.
pub open spec fn body_of(fields: Seq<FieldDescriptor>) -> Seq<FieldInit> {
    fields.map_values(|f: FieldDescriptor| init_of(f))
}

/// No field before index `j` has conflicting directives.
pub open spec fn no_conflict_before(fields: Seq<FieldDescriptor>, j: int) -> bool {
    forall|k: int| 0 <= k < j ==> !conflicting(#[trigger] fields[k])
}

/// The constructor's name: the override, or `new`.
pub open spec fn effective_name(record: RecordDescriptor) -> Seq<char> {
    match record.name_override {
        Some(n) => n@,
        None => "new"@,
    }
}

/// The constructor's visibility: the override, or the record's own.
pub open spec fn effective_visibility(record: RecordDescriptor) -> Visibility {
    match record.visibility_override {
        Some(v) => v,
        None => record.visibility,
    }
}

/// The constructor that a record of named fields without conflicts yields.
pub open spec fn constructor_of(record: RecordDescriptor, f: FunctionDescriptor) -> bool {
    &&& record.data matches RecordData::Named(fields)
    &&& f.owner == record.name
    &&& f.generics == record.generics
    &&& f.name@ == effective_name(record)
    &&& f.visibility == effective_visibility(record)
    &&& f.parameters@ == parameters_of(fields@)
    &&& f.body@ == body_of(fields@)
}

/// `idx` lists, in increasing order, the positions of exactly the parameter
/// fields, and the parameters are those fields' parameters.
pub open spec fn parameter_positions_are(fields: Seq<FieldDescriptor>, idx: Seq<int>) -> bool {
    &&& idx.len() == parameters_of(fields).len()
    &&& forall|k: int|
        0 <= k < idx.len() ==> 0 <= #[trigger] idx[k] < fields.len() && is_parameter(
            fields[idx[k]],
        ) && parameters_of(fields)[k] == parameter_of(fields[idx[k]])
    &&& forall|k: int, l: int| 0 <= k < l < idx.len() ==> idx[k] < idx[l]
    &&& forall|i: int|
        0 <= i < fields.len() && is_parameter(#[trigger] fields[i]) ==> exists|k: int|
            0 <= k < idx.len() && idx[k] == i
}

/// The parameters are exactly the parameter fields, in declaration order:
/// each parameter comes from a parameter field, later parameters from later
/// fields, every parameter field gives one, and where field names are unique no
/// defaulted field's name is among the parameters.
pub proof fn lemma_parameter_order(fields: Seq<FieldDescriptor>)
    ensures
        exists|idx: Seq<int>| #[trigger] parameter_positions_are(fields, idx),
        (forall|i: int, j: int|
            0 <= i < j < fields.len() ==> fields[i].name != fields[j].name) ==> forall|i: int, k: int|
            0 <= i < fields.len() && 0 <= k < parameters_of(fields).len() && !is_parameter(
                #[trigger] fields[i],
            ) ==> #[trigger] parameters_of(fields)[k].name != fields[i].name,
{
    let idx = parameter_positions(fields);
    assert(parameter_positions_are(fields, idx));
    assert forall|i: int, k: int|
        (forall|i: int, j: int| 0 <= i < j < fields.len() ==> fields[i].name != fields[j].name)
            && 0 <= i < fields.len() && 0 <= k < parameters_of(fields).len() && !is_parameter(
            #[trigger] fields[i],
        ) implies #[trigger] parameters_of(fields)[k].name != fields[i].name by {
        let m = idx[k];
        assert(is_parameter(fields[m]));
        assert(m != i);
    }
}

proof fn parameter_positions(fields: Seq<FieldDescriptor>) -> (idx: Seq<int>)
    ensures
        parameter_positions_are(fields, idx),
    decreases fields.len(),
{
    if fields.len() == 0 {
        seq![]
    } else {
        let pre = fields.drop_last();
        let last = fields.len() - 1;
        let head = parameter_positions(pre);
        assert forall|i: int| 0 <= i < last implies fields[i] == #[trigger] pre[i] by {}
        if is_parameter(fields.last()) {
            let idx = head.push(last);
            assert(idx[head.len() as int] == last);
            assert forall|i: int|
                0 <= i < fields.len() && is_parameter(#[trigger] fields[i]) implies exists|k: int|
                0 <= k < idx.len() && idx[k] == i by {
                if i < last {
                    assert(is_parameter(pre[i]));
                    let k = choose|k: int| 0 <= k < head.len() && head[k] == i;
                    assert(idx[k] == i);
                }
            }
            idx
        } else {
            assert forall|i: int|
                0 <= i < fields.len() && is_parameter(#[trigger] fields[i]) implies exists|k: int|
                0 <= k < head.len() && head[k] == i by {
                assert(is_parameter(pre[i]));
            }
            head
        }
    }
}

/// The `name` and `visibility` directives, where given, decide the
/// constructor's name and visibility; where absent, the name is `new` and the
/// visibility is the record's own.
pub proof fn lemma_overrides(record: RecordDescriptor)
    ensures
        record.name_override matches Some(n) ==> effective_name(record) == n@,
        record.name_override is None ==> effective_name(record) == "new"@,
        record.visibility_override matches Some(v) ==> effective_visibility(record) == v,
        record.visibility_override is None ==> effective_visibility(record)
            == record.visibility,
{
}

proof fn lemma_prefix_step(fields: Seq<FieldDescriptor>, k: int)
    requires
        0 <= k < fields.len(),
    ensures
        fields.subrange(0, k + 1).drop_last() == fields.subrange(0, k),
        fields.subrange(0, k + 1).last() == fields[k],
        body_of(fields.subrange(0, k + 1)) == body_of(fields.subrange(0, k)).push(
            init_of(fields[k]),
        ),
{
    assert(fields.subrange(0, k + 1).drop_last() =~= fields.subrange(0, k));
    assert(body_of(fields.subrange(0, k + 1)) =~= body_of(fields.subrange(0, k)).push(
        init_of(fields[k]),
    ));
}

/// Synthesize the constructor of a record.
///
/// Fails with `UnsupportedShape` unless the record has named fields, and
/// otherwise with `ConflictingDirectives` on the first field that carries both
/// directives; on success no field has been skipped.
pub fn synthesize(record: RecordDescriptor) -> (r: Result<FunctionDescriptor, SynthesisError>)
    ensures
        !(record.data is Named) ==> r == Err::<FunctionDescriptor, SynthesisError>(
            SynthesisError::UnsupportedShape { record: record.name },
        ),
        record.data matches RecordData::Named(fields) ==> {
            &&& (forall|i: int| 0 <= i < fields.len() ==> !conflicting(#[trigger] fields@[i]))
                <==> r is Ok
            &&& r matches Ok(f) ==> constructor_of(record, f)
            &&& r matches Err(e) ==> exists|j: int|
                0 <= j < fields.len() && conflicting(fields@[j]) && no_conflict_before(fields@, j)
                    && e == (SynthesisError::ConflictingDirectives { field: fields@[j].name })
        },
{
    let ghost input = record;
    let RecordDescriptor {
        visibility,
        name: name_of_record,
        generics,
        data,
        name_override,
        visibility_override,
    } = record;
    let fields = match data {
        RecordData::Named(fields) => fields,
        _ => {
            return Err(SynthesisError::UnsupportedShape { record: name_of_record });
        },
    };
    let ghost original = fields;
    let ghost all = fields@;
    let n = fields.len();
    let mut rest = fields;
    let mut parameters: Vec<Parameter> = Vec::new();
    let mut body: Vec<FieldInit> = Vec::new();
    let mut k: usize = 0;
    while k < n
        invariant
            input == record,
            input.data == RecordData::Named(original),
            all == original@,
            n == all.len(),
            0 <= k <= n,
            rest@ == all.subrange(k as int, n as int),
            parameters@ == parameters_of(all.subrange(0, k as int)),
            body@ == body_of(all.subrange(0, k as int)),
            no_conflict_before(all, k as int),
        decreases n - k,
    {
        proof {
            lemma_prefix_step(all, k as int);
        }
        assert(rest@[0] == all[k as int]);
        let f = rest.remove(0);
        assert(rest@ =~= all.subrange(k + 1, n as int));
        let c = classify(&f);
        match c {
            Err(e) => {
                assert(conflicting(original@[k as int]));
                assert(no_conflict_before(original@, k as int));
                assert(record.data matches RecordData::Named(fields) && fields == original);
                return Err(e);
            },
            Ok(c) => {
                let FieldDescriptor { name: field, ty, .. } = f;
                match c {
                    Classification::Parameter => {
                        body.push(FieldInit { field: field.clone(), value: FieldValue::Argument });
                        parameters.push(Parameter { name: field, ty });
                    },
                    Classification::Defaulted => {
                        body.push(FieldInit { field, value: FieldValue::Default });
                    },
                }
            },
        }
        k = k + 1;
    }
    assert(all.subrange(0, n as int) =~= all);
    let name = match name_override {
        Some(n) => n,
        None => String::from_str("new"),
    };
    let visibility = match visibility_override {
        Some(v) => v,
        None => visibility,
    };
    Ok(FunctionDescriptor { owner: name_of_record, generics, name, visibility, parameters, body })
}

} // verus!
