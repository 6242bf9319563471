//! The logical schema of a file: fields, their types, and projections.

use vstd::prelude::*;

verus! {

/// The type of the values of a column, as the decoder lays them out.
#[derive(Clone, Copy, Debug, PartialEq, Eq, Structural)]
pub enum DataType {
    /// No values: every row is missing.
    Null,
    Boolean,
    Int32,
    Int64,
    UInt32,
    UInt64,
    Float16,
    Float32,
    Float64,
    /// Text with 32-bit offsets.
    Utf8,
    /// Text with 64-bit offsets.
    LargeUtf8,
}

impl DataType {
    /// The type under which a table column keeps values of this type: text is
    /// always kept with 64-bit offsets, half-precision numbers are widened,
    /// rows without values are kept as missing 32-bit numbers, and every other
    /// type is kept as it is.
    pub open spec fn stored(self) -> DataType {
        match self {
            DataType::Utf8 => DataType::LargeUtf8,
            DataType::Float16 => DataType::Float32,
            DataType::Null => DataType::UInt32,
            other => other,
        }
    }
}

/// One column of the schema.
#[derive(Debug)]
pub struct Field {
    pub name: String,
    pub data_type: DataType,
}

impl Field {
    pub fn new(name: String, data_type: DataType) -> (field: Field)
        ensures
            field.name == name,
            field.data_type == data_type,
    {
        Field { name, data_type }
    }
}

/// Every index of the projection names a field of a schema of `width` fields.
pub open spec fn projection_fits(projection: Seq<usize>, width: nat) -> bool {
    forall|i: int| 0 <= i < projection.len() ==> (#[trigger] projection[i] as nat) < width
}

/// The projection that selects every field, in schema order.
pub open spec fn identity(width: nat) -> Seq<usize> {
    Seq::new(width, |i: int| i as usize)
}

/// The fields that a projection selects, in the projection's order.
pub open spec fn projected(schema: Seq<Field>, projection: Seq<usize>) -> Seq<Field> {
    Seq::new(projection.len(), |i: int| schema[projection[i] as int])
}

/// Builds the identity projection over a schema of `width` fields.
pub fn identity_projection(width: usize) -> (projection: Vec<usize>)
    ensures
        projection@ == identity(width as nat),
        projection_fits(projection@, width as nat),
{
    let mut projection: Vec<usize> = Vec::new();
    let mut i: usize = 0;
    while i < width
        invariant
            i <= width,
            projection@ == identity(i as nat),
        decreases width - i,
    {
        projection.push(i);
        i += 1;
        assert(projection@ =~= identity(i as nat));
    }
    projection
}

} // verus!
