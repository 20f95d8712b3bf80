//! The reader: it answers a request for an identifier with its whole input,
//! and refuses every request for anything else.

use crate::error::{slice_texts, Direction, Error, ErrorCode, ErrorCodeView, ErrorView};
use crate::text::same_name;
use vstd::prelude::*;

verus! {

/// The requests that the reader refuses.
#[derive(Clone, Copy, Debug, PartialEq, Eq, Structural)]
pub enum Request {
    Any,
    Bool,
    I8,
    I16,
    I32,
    I64,
    I128,
    U8,
    U16,
    U32,
    U64,
    U128,
    F32,
    F64,
    Char,
    Str,
    OwnedString,
    Bytes,
    ByteBuf,
    Optional,
    Unit,
    NewtypeStruct,
    Sequence,
    Tuple,
    TupleStruct,
    Mapping,
    Struct,
    IgnoredAny,
}

impl Request {
    /// The name under which the request is reported.
    pub open spec fn text(self) -> Seq<char> {
        match self {
            Request::Any => "deserialize_any"@,
            Request::Bool => "deserialize_bool"@,
            Request::I8 => "deserialize_i8"@,
            Request::I16 => "deserialize_i16"@,
            Request::I32 => "deserialize_i32"@,
            Request::I64 => "deserialize_i64"@,
            Request::I128 => "deserialize_i128"@,
            Request::U8 => "deserialize_u8"@,
            Request::U16 => "deserialize_u16"@,
            Request::U32 => "deserialize_u32"@,
            Request::U64 => "deserialize_u64"@,
            Request::U128 => "deserialize_u128"@,
            Request::F32 => "deserialize_f32"@,
            Request::F64 => "deserialize_f64"@,
            Request::Char => "deserialize_char"@,
            Request::Str => "deserialize_str"@,
            Request::OwnedString => "deserialize_string"@,
            Request::Bytes => "deserialize_bytes"@,
            Request::ByteBuf => "deserialize_byte_buf"@,
            Request::Optional => "deserialize_option"@,
            Request::Unit => "deserialize_unit"@,
            Request::NewtypeStruct => "deserialize_newtype_struct"@,
            Request::Sequence => "deserialize_seq"@,
            Request::Tuple => "deserialize_tuple"@,
            Request::TupleStruct => "deserialize_tuple_struct"@,
            Request::Mapping => "deserialize_map"@,
            Request::Struct => "deserialize_struct"@,
            Request::IgnoredAny => "deserialize_ignored_any"@,
        }
    }

    /// The name under which the request is reported.
    pub fn name(&self) -> (name: &'static str)
        ensures
            name@ == self.text(),
    {
        match self {
            Request::Any => "deserialize_any",
            Request::Bool => "deserialize_bool",
            Request::I8 => "deserialize_i8",
            Request::I16 => "deserialize_i16",
            Request::I32 => "deserialize_i32",
            Request::I64 => "deserialize_i64",
            Request::I128 => "deserialize_i128",
            Request::U8 => "deserialize_u8",
            Request::U16 => "deserialize_u16",
            Request::U32 => "deserialize_u32",
            Request::U64 => "deserialize_u64",
            Request::U128 => "deserialize_u128",
            Request::F32 => "deserialize_f32",
            Request::F64 => "deserialize_f64",
            Request::Char => "deserialize_char",
            Request::Str => "deserialize_str",
            Request::OwnedString => "deserialize_string",
            Request::Bytes => "deserialize_bytes",
            Request::ByteBuf => "deserialize_byte_buf",
            Request::Optional => "deserialize_option",
            Request::Unit => "deserialize_unit",
            Request::NewtypeStruct => "deserialize_newtype_struct",
            Request::Sequence => "deserialize_seq",
            Request::Tuple => "deserialize_tuple",
            Request::TupleStruct => "deserialize_tuple_struct",
            Request::Mapping => "deserialize_map",
            Request::Struct => "deserialize_struct",
            Request::IgnoredAny => "deserialize_ignored_any",
        }
    }
}

/// How a struct or a variant holds its data.
#[derive(Clone, Copy, Debug, PartialEq, Eq, Structural)]
pub enum Kind {
    /// No data at all.
    Unit,
    /// One unnamed field.
    Newtype,
    /// Several unnamed fields.
    Tuple,
    /// Named fields.
    Struct,
}

impl Kind {
    /// What a variant of this kind is called in a failure.
    pub open spec fn text(self) -> Seq<char> {
        match self {
            Kind::Unit => "unit variant"@,
            Kind::Newtype => "newtype variant"@,
            Kind::Tuple => "tuple variant"@,
            Kind::Struct => "struct variant"@,
        }
    }

    /// What a variant of this kind is called in a failure.
    pub fn name(&self) -> (name: &'static str)
        ensures
            name@ == self.text(),
    {
        match self {
            Kind::Unit => "unit variant",
            Kind::Newtype => "newtype variant",
            Kind::Tuple => "tuple variant",
            Kind::Struct => "struct variant",
        }
    }
}

/// The failure of the reader on a request that it refuses.
pub open spec fn refused(request: Request) -> ErrorView {
    ErrorView {
        direction: Direction::Deserialization,
        code: ErrorCodeView::UnsupportedOperation(request.text()),
    }
}

/// The failure on a token that is none of the names allowed.
pub open spec fn unknown_name(received: Seq<char>, allowed: Seq<Seq<char>>) -> ErrorView {
    ErrorView {
        direction: Direction::Deserialization,
        code: ErrorCodeView::InvalidVariantName { received, allowed },
    }
}

/// The failure on a variant that holds data: the token gave a unit variant,
/// and content of the given kind was expected after it.
pub open spec fn missing_content(expected: Kind) -> ErrorView {
    ErrorView {
        direction: Direction::Deserialization,
        code: ErrorCodeView::InvalidType {
            unexpected: Kind::Unit.text(),
            expected: expected.text(),
        },
    }
}

/// The failure on input that is left over.
pub open spec fn trailing() -> ErrorView {
    ErrorView { direction: Direction::Deserialization, code: ErrorCodeView::TrailingCharacters }
}

/// How `serde` words a unit variant that turned up where something else was
/// expected: the `Display` text of `serde::de::Unexpected::UnitVariant`,
/// which is the fixed string `unit variant`.
#[verifier::external_body]
fn unexpected_unit_variant() -> (text: String)
    ensures
        text@ == "unit variant"@,
{
    format!("{}", serde::de::Unexpected::UnitVariant)
}

/// The reader over one input. Its view is the input that is still unread.
#[derive(Debug)]
pub struct Deserializer<'de> {
    input: &'de str,
}

impl<'de> View for Deserializer<'de> {
    type V = Seq<char>;

    closed spec fn view(&self) -> Seq<char> {
        self.input@
    }
}

impl<'de> Deserializer<'de> {
    /// A reader that has all of `input` before it.
    pub fn new(input: &'de str) -> (deserializer: Deserializer<'de>)
        ensures
            deserializer@ == input@,
    {
        Deserializer { input }
    }

    /// The input that is still unread.
    pub fn remaining(&self) -> (rest: &'de str)
        ensures
            rest@ == self@,
    {
        self.input
    }

    /// The failure with which the reader answers a request that it refuses.
    pub fn unsupported(&self, request: Request) -> (error: Error)
        ensures
            error@ == refused(request),
    {
        Error::deserialization(
            ErrorCode::UnsupportedOperation(String::from_str(request.name())),
        )
    }

    /// Reads an identifier: all of the unread input, as it stands. Nothing is
    /// left unread after it. Whether the identifier is a name that the target
    /// knows is for the one who asked to decide.
    pub fn deserialize_identifier(&mut self) -> (outcome: Result<&'de str, Error>)
        ensures
            outcome matches Ok(token) && token@ == old(self)@,
            final(self)@ == Seq::<char>::empty(),
    {
        let token = self.input;
        self.input = "";
        proof {
            reveal_strlit("");
            assert(self.input@ =~= Seq::<char>::empty());
        }
        Ok(token)
    }

    /// Reads a unit struct of the given name: the unread input must be that
    /// name, character for character, and is then read up.
    pub fn deserialize_unit_struct(&mut self, name: &'static str) -> (outcome: Result<(), Error>)
        ensures
            old(self)@ == name@ ==> outcome is Ok && final(self)@ == Seq::<char>::empty(),
            old(self)@ != name@ ==> final(self)@ == old(self)@ && (outcome matches Err(error)
                && error@ == unknown_name(old(self)@, seq![name@])),
    {
        if same_name(self.input, name) {
            self.input = "";
            proof {
                reveal_strlit("");
                assert(self.input@ =~= Seq::<char>::empty());
            }
            Ok(())
        } else {
            let mut allowed: Vec<&'static str> = Vec::new();
            allowed.push(name);
            assert(slice_texts(allowed@) =~= seq![name@]);
            Err(Error::unknown_variant(self.input, allowed.as_slice()))
        }
    }

    /// Reads the content of a variant, once its name has been read. There is
    /// never any: a unit variant is complete, and a variant of any other kind
    /// is missing its content.
    pub fn variant_content(&self, kind: Kind) -> (outcome: Result<(), Error>)
        ensures
            kind == Kind::Unit ==> outcome is Ok,
            kind != Kind::Unit ==> (outcome matches Err(error) && error@ == missing_content(kind)),
    {
        match kind {
            Kind::Unit => Ok(()),
            _ => {
                let unexpected = unexpected_unit_variant();
                Err(Error::invalid_type(unexpected.as_str(), kind.name()))
            },
        }
    }

    /// Ends the reading and hands `value` on, which is allowed only when no
    /// input is left unread.
    pub fn finish<T>(&self, value: T) -> (outcome: Result<T, Error>)
        ensures
            self@.len() == 0 ==> outcome == Ok::<T, Error>(value),
            self@.len() != 0 ==> (outcome matches Err(error) && error@ == trailing()),
    {
        if self.input.is_empty() {
            Ok(value)
        } else {
            Err(Error::deserialization(ErrorCode::TrailingCharacters))
        }
    }
}

} // verus!
