//! Descriptions of values by their declared shape.
//!
//! A [`Shape`] says what a value announces of itself when it is taken apart:
//! the name of its struct, or of its enum and variant, and the fields it
//! holds. Values that announce no name, such as numbers and sequences, are
//! described by the operation they would ask of a writer.

use vstd::prelude::*;

verus! {

/// The operations that a value without a name asks of a writer.
#[derive(Clone, Copy, Debug, PartialEq, Eq, Structural)]
pub enum Operation {
    Bool,
    I8,
    I16,
    I32,
    I64,
    I128,
    U8,
    U16,
    U32,
    U64,
    U128,
    F32,
    F64,
    Char,
    Str,
    Bytes,
    Absent,
    Present,
    Unit,
    Sequence,
    Tuple,
    Mapping,
}

impl Operation {
    /// The name under which the operation is reported.
    pub open spec fn text(self) -> Seq<char> {
        match self {
            Operation::Bool => "serialize_bool"@,
            Operation::I8 => "serialize_i8"@,
            Operation::I16 => "serialize_i16"@,
            Operation::I32 => "serialize_i32"@,
            Operation::I64 => "serialize_i64"@,
            Operation::I128 => "serialize_i128"@,
            Operation::U8 => "serialize_u8"@,
            Operation::U16 => "serialize_u16"@,
            Operation::U32 => "serialize_u32"@,
            Operation::U64 => "serialize_u64"@,
            Operation::U128 => "serialize_u128"@,
            Operation::F32 => "serialize_f32"@,
            Operation::F64 => "serialize_f64"@,
            Operation::Char => "serialize_char"@,
            Operation::Str => "serialize_str"@,
            Operation::Bytes => "serialize_bytes"@,
            Operation::Absent => "serialize_none"@,
            Operation::Present => "serialize_some"@,
            Operation::Unit => "serialize_unit"@,
            Operation::Sequence => "serialize_seq"@,
            Operation::Tuple => "serialize_tuple"@,
            Operation::Mapping => "serialize_map"@,
        }
    }

    /// The name under which the operation is reported.
    pub fn name(&self) -> (name: &'static str)
        ensures
            name@ == self.text(),
    {
        match self {
            Operation::Bool => "serialize_bool",
            Operation::I8 => "serialize_i8",
            Operation::I16 => "serialize_i16",
            Operation::I32 => "serialize_i32",
            Operation::I64 => "serialize_i64",
            Operation::I128 => "serialize_i128",
            Operation::U8 => "serialize_u8",
            Operation::U16 => "serialize_u16",
            Operation::U32 => "serialize_u32",
            Operation::U64 => "serialize_u64",
            Operation::U128 => "serialize_u128",
            Operation::F32 => "serialize_f32",
            Operation::F64 => "serialize_f64",
            Operation::Char => "serialize_char",
            Operation::Str => "serialize_str",
            Operation::Bytes => "serialize_bytes",
            Operation::Absent => "serialize_none",
            Operation::Present => "serialize_some",
            Operation::Unit => "serialize_unit",
            Operation::Sequence => "serialize_seq",
            Operation::Tuple => "serialize_tuple",
            Operation::Mapping => "serialize_map",
        }
    }
}

/// A named field of a struct or of a struct-like variant.
#[derive(Debug, PartialEq, Eq)]
pub struct Field {
    pub key: &'static str,
    pub value: Shape,
}

/// A value, described by its declared shape.
#[derive(Debug, PartialEq, Eq)]
#[allow(inconsistent_fields)]
pub enum Shape {
    /// A value that announces no name.
    Unnamed(Operation),
    /// `struct Name;`
    UnitStruct { name: &'static str },
    /// `Name::Variant`
    UnitVariant { name: &'static str, variant_index: u32, variant: &'static str },
    /// `struct Name(T);`
    NewtypeStruct { name: &'static str, value: Box<Shape> },
    /// `Name::Variant(T)`
    NewtypeVariant {
        name: &'static str,
        variant_index: u32,
        variant: &'static str,
        value: Box<Shape>,
    },
    /// `struct Name(T, U, ..);`
    TupleStruct { name: &'static str, fields: Vec<Shape> },
    /// `Name::Variant(T, U, ..)`
    TupleVariant {
        name: &'static str,
        variant_index: u32,
        variant: &'static str,
        fields: Vec<Shape>,
    },
    /// `struct Name { key: T, .. }`
    Struct { name: &'static str, fields: Vec<Field> },
    /// `Name::Variant { key: T, .. }`
    StructVariant {
        name: &'static str,
        variant_index: u32,
        variant: &'static str,
        fields: Vec<Field>,
    },
}

/// A [`Shape`] as far as a writer of names can tell it from another: the names
/// it announces and the number of its field slots, not what the fields hold.
pub enum ShapeView {
    Unnamed(Operation),
    UnitStruct { name: Seq<char> },
    UnitVariant { name: Seq<char>, variant_index: u32, variant: Seq<char> },
    NewtypeStruct { name: Seq<char> },
    NewtypeVariant { name: Seq<char>, variant_index: u32, variant: Seq<char> },
    TupleStruct { name: Seq<char>, len: nat },
    TupleVariant { name: Seq<char>, variant_index: u32, variant: Seq<char>, len: nat },
    Struct { name: Seq<char>, len: nat },
    StructVariant { name: Seq<char>, variant_index: u32, variant: Seq<char>, len: nat },
}

impl View for Shape {
    type V = ShapeView;

    open spec fn view(&self) -> ShapeView {
        match *self {
            Shape::Unnamed(op) => ShapeView::Unnamed(op),
            Shape::UnitStruct { name } => ShapeView::UnitStruct { name: name@ },
            Shape::UnitVariant { name, variant_index, variant } => ShapeView::UnitVariant {
                name: name@,
                variant_index,
                variant: variant@,
            },
            Shape::NewtypeStruct { name, .. } => ShapeView::NewtypeStruct { name: name@ },
            Shape::NewtypeVariant { name, variant_index, variant, .. } => {
                ShapeView::NewtypeVariant { name: name@, variant_index, variant: variant@ }
            },
            Shape::TupleStruct { name, fields } => ShapeView::TupleStruct {
                name: name@,
                len: fields@.len(),
            },
            Shape::TupleVariant { name, variant_index, variant, fields } => {
                ShapeView::TupleVariant {
                    name: name@,
                    variant_index,
                    variant: variant@,
                    len: fields@.len(),
                }
            },
            Shape::Struct { name, fields } => ShapeView::Struct {
                name: name@,
                len: fields@.len(),
            },
            Shape::StructVariant { name, variant_index, variant, fields } => {
                ShapeView::StructVariant {
                    name: name@,
                    variant_index,
                    variant: variant@,
                    len: fields@.len(),
                }
            },
        }
    }
}

impl ShapeView {
    /// The name that stands for the value: a struct's own name, and for a
    /// variant of an enum the variant's name. A value that announces no name
    /// has none.
    pub open spec fn token(self) -> Option<Seq<char>> {
        match self {
            ShapeView::Unnamed(_) => None,
            ShapeView::UnitStruct { name } => Some(name),
            ShapeView::UnitVariant { variant, .. } => Some(variant),
            ShapeView::NewtypeStruct { name } => Some(name),
            ShapeView::NewtypeVariant { variant, .. } => Some(variant),
            ShapeView::TupleStruct { name, .. } => Some(name),
            ShapeView::TupleVariant { variant, .. } => Some(variant),
            ShapeView::Struct { name, .. } => Some(name),
            ShapeView::StructVariant { variant, .. } => Some(variant),
        }
    }

    /// Whether the value holds no data: a unit struct or a unit variant.
    pub open spec fn is_data_free(self) -> bool {
        self is UnitStruct || self is UnitVariant
    }

    /// Whether the value has a name and holds data beside it.
    pub open spec fn carries_data(self) -> bool {
        !(self is Unnamed) && !self.is_data_free()
    }
}

} // verus!
