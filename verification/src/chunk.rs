//! Decoded arrays.

use crate::schema::DataType;
use vstd::prelude::*;

verus! {

/// One decoded array of a column: a run of rows of one type.
///
/// It holds an `arrow2` array, which Verus cannot look into; `chunk_rows` and
/// `chunk_type` name what the scan reads from it.
#[verifier::external_body]
#[derive(Debug)]
pub struct Chunk {
    pub(crate) array: Box<dyn arrow2::array::Array>,
}

/// The number of rows of the array.
pub uninterp spec fn chunk_rows(chunk: Chunk) -> nat;

/// The type of the array's values, where it is one of `DataType`.
pub uninterp spec fn chunk_type(chunk: Chunk) -> Option<DataType>;

/// The array of the given type that has no rows.
pub uninterp spec fn empty_chunk(data_type: DataType) -> Chunk;

impl Chunk {
    /// Takes an `arrow2` array, boxed or about to be.
    #[verifier::external_body]
    pub fn new<A: Into<Box<dyn arrow2::array::Array>>>(array: A) -> Chunk {
        Chunk { array: array.into() }
    }

    /// `arrow2::array::Array::len`: the number of rows (slots) of the array.
    #[verifier::external_body]
    pub(crate) fn len(&self) -> (rows: usize)
        ensures
            rows == chunk_rows(*self),
    {
        self.array.len()
    }

    /// `arrow2::array::Array::data_type`, told apart variant by variant; `None`
    /// for a type that `DataType` does not have.
    #[verifier::external_body]
    pub(crate) fn data_type(&self) -> (data_type: Option<DataType>)
        ensures
            data_type == chunk_type(*self),
    {
        match self.array.data_type() {
            arrow2::datatypes::DataType::Null => Some(DataType::Null),
            arrow2::datatypes::DataType::Boolean => Some(DataType::Boolean),
            arrow2::datatypes::DataType::Int32 => Some(DataType::Int32),
            arrow2::datatypes::DataType::Int64 => Some(DataType::Int64),
            arrow2::datatypes::DataType::UInt32 => Some(DataType::UInt32),
            arrow2::datatypes::DataType::UInt64 => Some(DataType::UInt64),
            arrow2::datatypes::DataType::Float16 => Some(DataType::Float16),
            arrow2::datatypes::DataType::Float32 => Some(DataType::Float32),
            arrow2::datatypes::DataType::Float64 => Some(DataType::Float64),
            arrow2::datatypes::DataType::Utf8 => Some(DataType::Utf8),
            arrow2::datatypes::DataType::LargeUtf8 => Some(DataType::LargeUtf8),
            _ => None,
        }
    }

    /// `arrow2::array::new_empty_array`: an array of the given type with no rows.
    #[verifier::external_body]
    pub(crate) fn empty(data_type: DataType) -> (chunk: Chunk)
        ensures
            chunk == empty_chunk(data_type),
            chunk_rows(chunk) == 0,
            chunk_type(chunk) == Some(data_type),
    {
        Chunk {
            array: arrow2::array::new_empty_array(match data_type {
                DataType::Null => arrow2::datatypes::DataType::Null,
                DataType::Boolean => arrow2::datatypes::DataType::Boolean,
                DataType::Int32 => arrow2::datatypes::DataType::Int32,
                DataType::Int64 => arrow2::datatypes::DataType::Int64,
                DataType::UInt32 => arrow2::datatypes::DataType::UInt32,
                DataType::UInt64 => arrow2::datatypes::DataType::UInt64,
                DataType::Float16 => arrow2::datatypes::DataType::Float16,
                DataType::Float32 => arrow2::datatypes::DataType::Float32,
                DataType::Float64 => arrow2::datatypes::DataType::Float64,
                DataType::Utf8 => arrow2::datatypes::DataType::Utf8,
                DataType::LargeUtf8 => arrow2::datatypes::DataType::LargeUtf8,
            }),
        }
    }
}

} // verus!
