//! The writer: it takes the name that a value announces and never looks at
//! what the value holds.

use crate::error::{Direction, Error, ErrorCode, ErrorCodeView, ErrorView};
use crate::shape::{Operation, Shape, ShapeView};
use vstd::prelude::*;

verus! {

/// The failure of the writer on a value that announces no name.
pub open spec fn unsupported(op: Operation) -> ErrorView {
    ErrorView {
        direction: Direction::Serialization,
        code: ErrorCodeView::UnsupportedOperation(op.text()),
    }
}

/// What encoding a value gives: the name that stands for it, or the failure
/// that names the operation a nameless value asked for.
pub open spec fn encoded(value: ShapeView) -> Result<Seq<char>, ErrorView> {
    match value {
        ShapeView::Unnamed(op) => Err(unsupported(op)),
        _ => Ok(value.token()->0),
    }
}

/// The outcome of an encoding, with its strings seen as sequences of
/// characters.
pub open spec fn name_outcome(outcome: Result<&'static str, Error>) -> Result<
    Seq<char>,
    ErrorView,
> {
    match outcome {
        Ok(name) => Ok(name@),
        Err(error) => Err(error@),
    }
}

/// The writer. It holds no state: each value is answered from what it
/// announces alone.
#[derive(Clone, Copy, Debug)]
pub struct Serializer {}

/// The writer in the middle of a value with several fields. It remembers the
/// name to give back once the last field has gone by.
#[derive(Debug)]
pub struct Compound {
    name: &'static str,
}

impl Compound {
    /// The name that the writer gives back at the end.
    pub closed spec fn name(&self) -> Seq<char> {
        self.name@
    }

    /// Lets one field slot go by. The field's value is not asked for, so
    /// nothing about it can make this fail.
    pub fn serialize_field(&mut self) -> (outcome: Result<(), Error>)
        ensures
            outcome is Ok,
            final(self).name() == old(self).name(),
    {
        Ok(())
    }

    /// Closes the value and gives its name.
    pub fn end(self) -> (outcome: Result<&'static str, Error>)
        ensures
            name_outcome(outcome) == Ok::<Seq<char>, ErrorView>(self.name()),
    {
        Ok(self.name)
    }
}

impl Serializer {
    pub fn new() -> (serializer: Serializer) {
        Serializer {  }
    }

    /// The failure with which the writer answers a value that announces no
    /// name.
    pub fn unsupported(&self, op: Operation) -> (error: Error)
        ensures
            error@ == unsupported(op),
    {
        Error::serialization(ErrorCode::UnsupportedOperation(String::from_str(op.name())))
    }

    /// A unit struct is written as its name.
    pub fn serialize_unit_struct(&self, name: &'static str) -> (outcome: Result<
        &'static str,
        Error,
    >)
        ensures
            name_outcome(outcome) == Ok::<Seq<char>, ErrorView>(name@),
    {
        Ok(name)
    }

    /// A unit variant is written as the variant's name.
    pub fn serialize_unit_variant(
        &self,
        name: &'static str,
        variant_index: u32,
        variant: &'static str,
    ) -> (outcome: Result<&'static str, Error>)
        ensures
            name_outcome(outcome) == Ok::<Seq<char>, ErrorView>(variant@),
    {
        Ok(variant)
    }

    /// A newtype struct is written as its name; the wrapped value is not
    /// asked for.
    pub fn serialize_newtype_struct(&self, name: &'static str) -> (outcome: Result<
        &'static str,
        Error,
    >)
        ensures
            name_outcome(outcome) == Ok::<Seq<char>, ErrorView>(name@),
    {
        Ok(name)
    }

    /// A newtype variant is written as the variant's name; the wrapped value
    /// is not asked for.
    pub fn serialize_newtype_variant(
        &self,
        name: &'static str,
        variant_index: u32,
        variant: &'static str,
    ) -> (outcome: Result<&'static str, Error>)
        ensures
            name_outcome(outcome) == Ok::<Seq<char>, ErrorView>(variant@),
    {
        Ok(variant)
    }

    /// Opens a tuple struct of `len` fields.
    pub fn serialize_tuple_struct(&self, name: &'static str, len: usize) -> (outcome: Result<
        Compound,
        Error,
    >)
        ensures
            outcome matches Ok(compound) && compound.name() == name@,
    {
        Ok(Compound { name })
    }

    /// Opens a tuple variant of `len` fields.
    pub fn serialize_tuple_variant(
        &self,
        name: &'static str,
        variant_index: u32,
        variant: &'static str,
        len: usize,
    ) -> (outcome: Result<Compound, Error>)
        ensures
            outcome matches Ok(compound) && compound.name() == variant@,
    {
        Ok(Compound { name: variant })
    }

    /// Opens a struct of `len` named fields.
    pub fn serialize_struct(&self, name: &'static str, len: usize) -> (outcome: Result<
        Compound,
        Error,
    >)
        ensures
            outcome matches Ok(compound) && compound.name() == name@,
    {
        Ok(Compound { name })
    }

    /// Opens a struct-like variant of `len` named fields.
    pub fn serialize_struct_variant(
        &self,
        name: &'static str,
        variant_index: u32,
        variant: &'static str,
        len: usize,
    ) -> (outcome: Result<Compound, Error>)
        ensures
            outcome matches Ok(compound) && compound.name() == variant@,
    {
        Ok(Compound { name: variant })
    }
}

/// Hands `len` field slots to the writer, one after the other, and closes the
/// value.
fn pass_fields(compound: Compound, len: usize) -> (outcome: Result<&'static str, Error>)
    ensures
        name_outcome(outcome) == Ok::<Seq<char>, ErrorView>(compound.name()),
{
    let mut compound = compound;
    let ghost name = compound.name();
    let mut i: usize = 0;
    while i < len
        invariant
            compound.name() == name,
        decreases len - i,
    {
        match compound.serialize_field() {
            Ok(()) => {},
            Err(error) => {
                return Err(error);
            },
        }
        i = i + 1;
    }
    compound.end()
}

impl Shape {
    /// Takes the value apart for the writer, as far as the writer asks: it is
    /// told the names and the number of fields, and is handed each field slot
    /// without the field's value.
    pub fn serialize(&self, serializer: &Serializer) -> (outcome: Result<&'static str, Error>)
        ensures
            name_outcome(outcome) == encoded(self@),
    {
        match self {
            Shape::Unnamed(op) => Err(serializer.unsupported(*op)),
            Shape::UnitStruct { name } => serializer.serialize_unit_struct(name),
            Shape::UnitVariant { name, variant_index, variant } => {
                serializer.serialize_unit_variant(name, *variant_index, variant)
            },
            Shape::NewtypeStruct { name, .. } => serializer.serialize_newtype_struct(name),
            Shape::NewtypeVariant { name, variant_index, variant, .. } => {
                serializer.serialize_newtype_variant(name, *variant_index, variant)
            },
            Shape::TupleStruct { name, fields } => {
                match serializer.serialize_tuple_struct(name, fields.len()) {
                    Ok(compound) => pass_fields(compound, fields.len()),
                    Err(error) => Err(error),
                }
            },
            Shape::TupleVariant { name, variant_index, variant, fields } => {
                match serializer.serialize_tuple_variant(
                    name,
                    *variant_index,
                    variant,
                    fields.len(),
                ) {
                    Ok(compound) => pass_fields(compound, fields.len()),
                    Err(error) => Err(error),
                }
            },
            Shape::Struct { name, fields } => {
                match serializer.serialize_struct(name, fields.len()) {
                    Ok(compound) => pass_fields(compound, fields.len()),
                    Err(error) => Err(error),
                }
            },
            Shape::StructVariant { name, variant_index, variant, fields } => {
                match serializer.serialize_struct_variant(
                    name,
                    *variant_index,
                    variant,
                    fields.len(),
                ) {
                    Ok(compound) => pass_fields(compound, fields.len()),
                    Err(error) => Err(error),
                }
            },
        }
    }
}

} // verus!
