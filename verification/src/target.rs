//! Descriptions of the types that a name can be decoded into, and the part
//! that such a type plays when a value of it is rebuilt.

use crate::de::{missing_content, refused, unknown_name, Deserializer, Kind, Request};
use crate::error::{slice_texts, Error, ErrorView};
use crate::shape::{Shape, ShapeView};
use crate::text::same_name;
use vstd::prelude::*;

verus! {

/// A variant of an enum: the name it is declared under, and how it holds its
/// data.
#[derive(Clone, Copy, Debug, PartialEq, Eq)]
pub struct Variant {
    pub name: &'static str,
    pub kind: Kind,
}

/// A [`Variant`] with its name seen as a sequence of characters.
pub struct VariantView {
    pub name: Seq<char>,
    pub kind: Kind,
}

impl View for Variant {
    type V = VariantView;

    open spec fn view(&self) -> VariantView {
        VariantView { name: self.name@, kind: self.kind }
    }
}

/// The type that a name is to be decoded into.
#[derive(Debug, PartialEq, Eq)]
pub enum Target {
    /// A type without a name of its own, which asks the reader for a number,
    /// a string, a sequence and the like.
    Unnamed(Request),
    /// A struct of the given name.
    Struct { name: &'static str, kind: Kind },
    /// An enum of the given name, with its variants in the order of their
    /// declaration.
    Enum { name: &'static str, variants: Vec<Variant> },
}

/// A [`Target`] with its names seen as sequences of characters.
pub enum TargetView {
    Unnamed(Request),
    Struct { name: Seq<char>, kind: Kind },
    Enum { name: Seq<char>, variants: Seq<VariantView> },
}

/// The views of a list of variants, in order.
pub open spec fn variant_views(variants: Seq<Variant>) -> Seq<VariantView> {
    Seq::new(variants.len(), |i: int| variants[i]@)
}

/// The names of a list of variants, in order.
pub open spec fn variant_names(variants: Seq<VariantView>) -> Seq<Seq<char>> {
    Seq::new(variants.len(), |i: int| variants[i].name)
}

impl View for Target {
    type V = TargetView;

    open spec fn view(&self) -> TargetView {
        match *self {
            Target::Unnamed(request) => TargetView::Unnamed(request),
            Target::Struct { name, kind } => TargetView::Struct { name: name@, kind },
            Target::Enum { name, variants } => TargetView::Enum {
                name: name@,
                variants: variant_views(variants@),
            },
        }
    }
}

/// The place of `token` among `names`: the first index that holds exactly
/// this name, if any does.
pub open spec fn position(names: Seq<Seq<char>>, token: Seq<char>) -> Option<int> {
    if exists|i: int| 0 <= i < names.len() && names[i] == token {
        Some(choose|i: int| first_match(names, token, i))
    } else {
        None
    }
}

/// Whether `i` is the first index of `names` that holds `token`.
pub open spec fn first_match(names: Seq<Seq<char>>, token: Seq<char>, i: int) -> bool {
    &&& 0 <= i < names.len()
    &&& names[i] == token
    &&& forall|j: int| 0 <= j < i ==> names[j] != token
}

/// A first match is the position, and the only one.
pub proof fn lemma_position(names: Seq<Seq<char>>, token: Seq<char>, i: int)
    requires
        first_match(names, token, i),
    ensures
        position(names, token) == Some(i),
{
    let chosen = choose|k: int| first_match(names, token, k);
    assert(first_match(names, token, chosen));
    if chosen < i {
        assert(names[chosen] != token);
    }
    if i < chosen {
        assert(names[i] != token);
    }
}

/// What decoding `input` into `target` gives.
///
/// A unit struct is decoded from its own name and from nothing else. An enum
/// is decoded from the name of one of its unit variants; the name of a variant
/// that holds data is known, but the data is missing. Every other target asks
/// for something that a name cannot give. A variant is numbered by its place
/// in the declaration, as a `u32`.
pub open spec fn decoded(input: Seq<char>, target: TargetView) -> Result<ShapeView, ErrorView> {
    match target {
        TargetView::Unnamed(request) => Err(refused(request)),
        TargetView::Struct { name, kind } => match kind {
            Kind::Unit => if input == name {
                Ok(ShapeView::UnitStruct { name })
            } else {
                Err(unknown_name(input, seq![name]))
            },
            Kind::Newtype => Err(refused(Request::NewtypeStruct)),
            Kind::Tuple => Err(refused(Request::TupleStruct)),
            Kind::Struct => Err(refused(Request::Struct)),
        },
        TargetView::Enum { name, variants } => match position(variant_names(variants), input) {
            None => Err(unknown_name(input, variant_names(variants))),
            Some(i) => if variants[i].kind == Kind::Unit {
                Ok(
                    ShapeView::UnitVariant {
                        name,
                        variant_index: i as u32,
                        variant: variants[i].name,
                    },
                )
            } else {
                Err(missing_content(variants[i].kind))
            },
        },
    }
}

/// The outcome of a decoding, with its strings seen as sequences of
/// characters.
pub open spec fn shape_outcome(outcome: Result<Shape, Error>) -> Result<ShapeView, ErrorView> {
    match outcome {
        Ok(value) => Ok(value@),
        Err(error) => Err(error@),
    }
}

/// Finds the variant that `token` names: the first one declared under
/// exactly this name.
pub fn resolve(variants: &Vec<Variant>, token: &str) -> (found: Option<usize>)
    ensures
        match found {
            Some(i) => i < variants@.len() && position(
                variant_names(variant_views(variants@)),
                token@,
            ) == Some(i as int),
            None => position(variant_names(variant_views(variants@)), token@).is_none(),
        },
{
    let ghost names = variant_names(variant_views(variants@));
    let mut i: usize = 0;
    while i < variants.len()
        invariant
            i <= variants@.len(),
            names == variant_names(variant_views(variants@)),
            forall|j: int| 0 <= j < i ==> names[j] != token@,
        decreases variants@.len() - i,
    {
        if same_name(variants[i].name, token) {
            proof {
                assert(names[i as int] == token@);
                lemma_position(names, token@, i as int);
            }
            return Some(i);
        }
        i = i + 1;
    }
    None
}

/// The names of the variants, in order, as a decoder lists them in a failure.
pub fn names_of(variants: &Vec<Variant>) -> (names: Vec<&'static str>)
    ensures
        slice_texts(names@) == variant_names(variant_views(variants@)),
{
    let mut names: Vec<&'static str> = Vec::new();
    let mut i: usize = 0;
    while i < variants.len()
        invariant
            i <= variants@.len(),
            names@.len() == i,
            forall|k: int| 0 <= k < i ==> (#[trigger] names@[k])@ == variants@[k].name@,
        decreases variants@.len() - i,
    {
        names.push(variants[i].name);
        i = i + 1;
    }
    assert(slice_texts(names@) =~= variant_names(variant_views(variants@)));
    names
}

impl Target {
    /// Rebuilds a value of this type from what the reader gives: the type
    /// makes its request, compares the identifier it is handed with the names
    /// it declares, and asks for the content of the variant that was named.
    pub fn deserialize<'de>(&self, deserializer: &mut Deserializer<'de>) -> (outcome: Result<
        Shape,
        Error,
    >)
        ensures
            shape_outcome(outcome) == decoded(old(deserializer)@, self@),
            outcome is Ok ==> final(deserializer)@.len() == 0,
    {
        match self {
            Target::Unnamed(request) => Err(deserializer.unsupported(*request)),
            Target::Struct { name, kind } => match kind {
                Kind::Unit => match deserializer.deserialize_unit_struct(name) {
                    Ok(()) => Ok(Shape::UnitStruct { name }),
                    Err(error) => Err(error),
                },
                Kind::Newtype => Err(deserializer.unsupported(Request::NewtypeStruct)),
                Kind::Tuple => Err(deserializer.unsupported(Request::TupleStruct)),
                Kind::Struct => Err(deserializer.unsupported(Request::Struct)),
            },
            Target::Enum { name, variants } => {
                let token = match deserializer.deserialize_identifier() {
                    Ok(token) => token,
                    Err(error) => {
                        return Err(error);
                    },
                };
                match resolve(variants, token) {
                    None => {
                        let names = names_of(variants);
                        Err(Error::unknown_variant(token, names.as_slice()))
                    },
                    Some(i) => {
                        let variant = variants[i];
                        match deserializer.variant_content(variant.kind) {
                            Ok(()) => Ok(
                                Shape::UnitVariant {
                                    name,
                                    variant_index: #[verifier::truncate]
                                    (i as u32),
                                    variant: variant.name,
                                },
                            ),
                            Err(error) => Err(error),
                        }
                    },
                }
            },
        }
    }
}

} // verus!
