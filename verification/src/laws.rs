//! What holds of encoding and decoding taken together.

use crate::de::{missing_content, refused, unknown_name, Kind, Request};
use crate::error::ErrorView;
use crate::ser::encoded;
use crate::shape::{Shape, ShapeView};
use crate::target::{
    decoded, first_match, lemma_position, variant_names, TargetView, VariantView,
};
use vstd::prelude::*;

verus! {

impl ShapeView {
    /// How the value holds its data.
    pub open spec fn kind(self) -> Kind
        recommends
            !(self is Unnamed),
    {
        match self {
            ShapeView::UnitStruct { .. } | ShapeView::UnitVariant { .. } => Kind::Unit,
            ShapeView::NewtypeStruct { .. } | ShapeView::NewtypeVariant { .. } => Kind::Newtype,
            ShapeView::TupleStruct { .. } | ShapeView::TupleVariant { .. } => Kind::Tuple,
            _ => Kind::Struct,
        }
    }

    /// Whether this is a value of the type `target`: a struct of the same
    /// name and kind, or a variant of the enum of the same name, declared at
    /// the value's index under the value's name and kind.
    pub open spec fn inhabits(self, target: TargetView) -> bool {
        match self {
            ShapeView::Unnamed(_) => false,
            ShapeView::UnitStruct { name }
            | ShapeView::NewtypeStruct { name }
            | ShapeView::TupleStruct { name, .. }
            | ShapeView::Struct { name, .. } => target == (TargetView::Struct {
                name,
                kind: self.kind(),
            }),
            ShapeView::UnitVariant { name, variant_index, variant }
            | ShapeView::NewtypeVariant { name, variant_index, variant }
            | ShapeView::TupleVariant { name, variant_index, variant, .. }
            | ShapeView::StructVariant { name, variant_index, variant, .. } => {
                &&& target matches TargetView::Enum { name: enum_name, variants }
                &&& enum_name == name
                &&& variant_index < variants.len()
                &&& variants[variant_index as int] == (VariantView { name: variant, kind: self.kind() })
            },
        }
    }
}

impl TargetView {
    /// The names that the type declares: a struct its own, an enum those of
    /// its variants.
    pub open spec fn names(self) -> Seq<Seq<char>> {
        match self {
            TargetView::Unnamed(_) => Seq::empty(),
            TargetView::Struct { name, .. } => seq![name],
            TargetView::Enum { variants, .. } => variant_names(variants),
        }
    }

    /// Whether the type is one that a name can be decoded into at all: an
    /// enum, or a struct that holds no data.
    pub open spec fn takes_a_name(self) -> bool {
        match self {
            TargetView::Unnamed(_) => false,
            TargetView::Struct { kind, .. } => kind == Kind::Unit,
            TargetView::Enum { .. } => true,
        }
    }

    /// Whether the type is one that can be declared: no two variants of an
    /// enum go by the same name.
    pub open spec fn well_formed(self) -> bool {
        forall|i: int, j: int|
            0 <= i < j < self.names().len() ==> self.names()[i] != self.names()[j]
    }
}

impl Shape {
    /// Whether `field` is what one of the fields of this value holds.
    pub open spec fn holds(self, field: Shape) -> bool {
        match self {
            Shape::NewtypeStruct { value, .. } | Shape::NewtypeVariant { value, .. } => *value
                == field,
            Shape::TupleStruct { fields, .. } | Shape::TupleVariant { fields, .. } => exists|
                i: int,
            |
                0 <= i < fields@.len() && fields@[i] == field,
            Shape::Struct { fields, .. } | Shape::StructVariant { fields, .. } => exists|i: int|
                0 <= i < fields@.len() && fields@[i].value == field,
            _ => false,
        }
    }
}

/// A value that holds no data comes back from its own name: encoding it
/// succeeds, and decoding the result into the value's type gives the value.
pub proof fn lemma_data_free_round_trip(value: ShapeView, target: TargetView)
    requires
        target.well_formed(),
        value.inhabits(target),
        value.is_data_free(),
    ensures
        encoded(value) matches Ok(token) && decoded(token, target) == Ok::<ShapeView, ErrorView>(
            value,
        ),
{
    match value {
        ShapeView::UnitVariant { name, variant_index, variant } => {
            let names = target.names();
            assert(names[variant_index as int] == variant);
            assert(first_match(names, variant, variant_index as int));
            lemma_position(names, variant, variant_index as int);
        },
        _ => {},
    }
}

/// A value that holds data does not come back: encoding it succeeds and gives
/// its name, and decoding that name into the value's type fails, for a struct
/// because the reader refuses what the struct asks for, for a variant because
/// the content that should follow the name is missing.
pub proof fn lemma_data_is_lost(value: ShapeView, target: TargetView)
    requires
        target.well_formed(),
        value.inhabits(target),
        value.carries_data(),
    ensures
        encoded(value) matches Ok(token) && decoded(token, target) == Err::<ShapeView, ErrorView>(
            match value {
                ShapeView::NewtypeStruct { .. } => refused(Request::NewtypeStruct),
                ShapeView::TupleStruct { .. } => refused(Request::TupleStruct),
                ShapeView::Struct { .. } => refused(Request::Struct),
                _ => missing_content(value.kind()),
            },
        ),
{
    match value {
        ShapeView::NewtypeVariant { name, variant_index, variant }
        | ShapeView::TupleVariant { name, variant_index, variant, .. }
        | ShapeView::StructVariant { name, variant_index, variant, .. } => {
            let names = target.names();
            assert(names[variant_index as int] == variant);
            assert(first_match(names, variant, variant_index as int));
            lemma_position(names, variant, variant_index as int);
        },
        _ => {},
    }
}

/// Encoding never asks for what a field holds: a value with a name is encoded
/// as that name even where one of its fields, encoded on its own, would fail.
pub proof fn lemma_fields_are_not_evaluated(value: Shape, field: Shape)
    requires
        value.holds(field),
        encoded(field@) is Err,
    ensures
        encoded(value@) matches Ok(token) && value@.token() == Some(token),
{
}

/// Names are matched exactly: decoding succeeds only on a token that is one
/// of the names the type declares, the same in length and in every character.
/// On any other token a type that has names fails and reports the token
/// with the names it would have taken.
pub proof fn lemma_match_is_exact(token: Seq<char>, target: TargetView)
    requires
        !target.names().contains(token),
    ensures
        decoded(token, target) is Err,
        target.takes_a_name() ==> decoded(token, target) == Err::<ShapeView, ErrorView>(
            unknown_name(token, target.names()),
        ),
{
    let names = target.names();
    match target {
        TargetView::Struct { name, kind } => {
            assert(names[0] == name);
        },
        _ => {},
    }
}

/// Case is not folded: a token as long as a unit struct's name that differs
/// from it in one character, be it only in the case of a letter, is not
/// decoded into that struct.
pub proof fn lemma_case_matters(token: Seq<char>, name: Seq<char>, at: int)
    requires
        token.len() == name.len(),
        0 <= at < name.len(),
        token[at] != name[at],
    ensures
        decoded(token, TargetView::Struct { name, kind: Kind::Unit }) == Err::<
            ShapeView,
            ErrorView,
        >(unknown_name(token, seq![name])),
{
}

/// Nothing is trimmed: a unit struct's name with anything before or after it
/// is not decoded into that struct.
pub proof fn lemma_padding_matters(name: Seq<char>, before: Seq<char>, after: Seq<char>)
    requires
        before.len() + after.len() > 0,
    ensures
        decoded(before + name + after, TargetView::Struct { name, kind: Kind::Unit }) == Err::<
            ShapeView,
            ErrorView,
        >(unknown_name(before + name + after, seq![name])),
{
    assert((before + name + after).len() != name.len());
}

/// The name that a variant is declared under decides: whatever the variant is
/// called elsewhere, this name is decoded into it, if the variant holds no
/// data.
pub proof fn lemma_declared_name_decides(target: TargetView, index: int)
    requires
        target.well_formed(),
        target matches TargetView::Enum { variants, .. } && 0 <= index < variants.len()
            && index <= u32::MAX && variants[index].kind == Kind::Unit,
    ensures
        target matches TargetView::Enum { name, variants } && decoded(
            variants[index].name,
            target,
        ) == Ok::<ShapeView, ErrorView>(
            ShapeView::UnitVariant {
                name,
                variant_index: index as u32,
                variant: variants[index].name,
            },
        ),
{
    let names = target.names();
    let token = names[index];
    assert(first_match(names, token, index));
    lemma_position(names, token, index);
}

} // verus!
