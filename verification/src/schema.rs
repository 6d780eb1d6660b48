//! Column and schema model: the named, typed fields that describe both the
//! statistics record and the batches a shuffle writer accepts.

use vstd::prelude::*;

verus! {

/// The primitive column types this layer distinguishes.
#[derive(Debug, Clone, Copy, PartialEq, Eq, Structural)]
pub enum DataType {
    Boolean,
    Int32,
    Int64,
    UInt32,
    UInt64,
    Utf8,
}

/// One named, typed column of a schema.
#[derive(Debug)]
pub struct Field {
    pub name: String,
    pub data_type: DataType,
    pub nullable: bool,
}

/// A named struct-typed field: a name plus the fields nested under it.
#[derive(Debug)]
pub struct StructField {
    pub name: String,
    pub fields: Vec<Field>,
    pub nullable: bool,
}

/// Two fields agree on name, type and nullability.
pub open spec fn field_matches(a: Field, b: Field) -> bool {
    a.name@ == b.name@ && a.data_type == b.data_type && a.nullable == b.nullable
}

/// Two schemas agree field by field.
pub open spec fn schema_matches(a: Seq<Field>, b: Seq<Field>) -> bool {
    a.len() == b.len() && (forall|i: int|
        0 <= i < a.len() ==> field_matches(#[trigger] a[i], b[i]))
}

/// Decides `field_matches`.
pub fn field_eq(a: &Field, b: &Field) -> (r: bool)
    ensures
        r == field_matches(*a, *b),
{
    a.name == b.name && a.data_type == b.data_type && a.nullable == b.nullable
}

/// Decides `schema_matches`.
pub fn schema_eq(a: &Vec<Field>, b: &Vec<Field>) -> (r: bool)
    ensures
        r == schema_matches(a@, b@),
{
    if a.len() != b.len() {
        return false;
    }
    let mut i: usize = 0;
    while i < a.len()
        invariant
            a@.len() == b@.len(),
            i <= a@.len(),
            forall|j: int| 0 <= j < i ==> field_matches(#[trigger] a@[j], b@[j]),
        decreases a@.len() - i,
    {
        if !field_eq(&a[i], &b[i]) {
            return false;
        }
        i = i + 1;
    }
    true
}

} // verus!
