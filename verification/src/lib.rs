//! A codec between values and the names of their declared shapes.
//!
//! Encoding keeps the name of a struct or of an enum variant and discards
//! whatever data the value holds. Decoding turns a name back into a value,
//! which can only succeed for shapes that hold no data.

pub mod de;
pub mod error;
pub mod laws;
pub mod ser;
pub mod shape;
pub mod target;
pub mod text;

pub use de::Deserializer;
pub use error::{Direction, Error, ErrorCode};
pub use ser::Serializer;
pub use shape::{Field, Operation, Shape};
pub use target::{Target, Variant};

use crate::ser::{encoded, name_outcome};
use crate::target::{decoded, shape_outcome};
use vstd::prelude::*;

verus! {

/// Encodes a value as the name of its struct or of its variant. Whatever the
/// value holds is discarded, and is not even looked at.
pub fn to_str(value: &Shape) -> (outcome: Result<&'static str, Error>)
    ensures
        name_outcome(outcome) == encoded(value@),
{
    let serializer = Serializer::new();
    value.serialize(&serializer)
}

/// Decodes a name into a value of the target type. This succeeds only where
/// the name is all of the input and stands for a value that holds no data.
pub fn from_str(value: &str, target: &Target) -> (outcome: Result<Shape, Error>)
    ensures
        shape_outcome(outcome) == decoded(value@, target@),
{
    let mut deserializer = Deserializer::new(value);
    match target.deserialize(&mut deserializer) {
        Ok(variant) => deserializer.finish(variant),
        Err(error) => Err(error),
    }
}

} // verus!
