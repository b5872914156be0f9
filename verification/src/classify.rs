//! The classification of a field by its declared type: mandatory, optional
//! or repeated.
//!
//! The rule reads names, not meanings: a type is optional where the last
//! segment of its path is spelled `Option` and has exactly one type argument,
//! repeated where it is spelled `Vec` and has exactly one, and mandatory
//! otherwise. An alias of `Option` under another name is mandatory.

use crate::ident::same_text;
use crate::schema::{extract_type, last_segment, SegmentView, TypeDescriptor, TypeView};
use crate::tokens::{stream_tokens, Token};
use vstd::prelude::*;

verus! {

/// The three kinds of field.
#[derive(Clone, Copy, Debug, PartialEq, Eq, Structural)]
pub enum Category {
    /// The field must be set before the structure is built.
    Mandatory,
    /// The field may stay unset, and is then absent in the structure.
    Optional,
    /// The field may stay unset, and is then an empty collection.
    Repeated,
}

/// The kind of a field, with the type inside its wrapper.
#[derive(Debug)]
pub enum TypeClassification<'a> {
    Mandatory,
    /// `Option<T>`, with `T`.
    Optional(&'a TypeDescriptor),
    /// `Vec<T>`, with `T`.
    Repeated(&'a TypeDescriptor),
}

/// A classification, as far as the generator reads it: the kind, and the
/// tokens of the type inside the wrapper.
pub ghost enum ClassView {
    Mandatory,
    Optional(Seq<Token>),
    Repeated(Seq<Token>),
}

impl ClassView {
    pub open spec fn category(self) -> Category {
        match self {
            ClassView::Mandatory => Category::Mandatory,
            ClassView::Optional(_) => Category::Optional,
            ClassView::Repeated(_) => Category::Repeated,
        }
    }
}

impl<'a> View for TypeClassification<'a> {
    type V = ClassView;

    open spec fn view(&self) -> ClassView {
        match self {
            TypeClassification::Mandatory => ClassView::Mandatory,
            TypeClassification::Optional(inner) => ClassView::Optional(stream_tokens(inner.tokens)),
            TypeClassification::Repeated(element) => ClassView::Repeated(
                stream_tokens(element.tokens),
            ),
        }
    }
}

impl<'a> TypeClassification<'a> {
    /// The kind alone.
    pub fn category(&self) -> (category: Category)
        ensures
            category == self@.category(),
    {
        match self {
            TypeClassification::Mandatory => Category::Mandatory,
            TypeClassification::Optional(_) => Category::Optional,
            TypeClassification::Repeated(_) => Category::Repeated,
        }
    }
}

/// The name by which the optional wrapper is recognized.
pub open spec fn option_name() -> Seq<char> {
    "Option"@
}

/// The name by which the sequence wrapper is recognized.
pub open spec fn vector_name() -> Seq<char> {
    "Vec"@
}

impl SegmentView {
    /// Whether the segment is spelled `name` and has exactly one type argument.
    pub open spec fn wraps(self, name: Seq<char>) -> bool {
        self.ident == name && self.arguments.len() == 1
    }
}

impl TypeView {
    /// Whether the outermost type constructor is spelled `name` and has
    /// exactly one type argument.
    pub open spec fn is_wrapper(self, name: Seq<char>) -> bool {
        self.last_segment() matches Some(segment) && segment.wraps(name)
    }

    pub open spec fn is_option(self) -> bool {
        self.is_wrapper(option_name())
    }

    pub open spec fn is_vector(self) -> bool {
        self.is_wrapper(vector_name())
    }

    /// The tokens of the one type argument of a wrapper.
    pub open spec fn wrapped(self) -> Seq<Token>
        recommends
            self.is_option() || self.is_vector(),
    {
        self.last_segment()->0.arguments[0]
    }

    /// The classification of the type: the optional wrapper is looked for
    /// first, then the sequence wrapper.
    pub open spec fn classification(self) -> ClassView {
        if self.is_option() {
            ClassView::Optional(self.wrapped())
        } else if self.is_vector() {
            ClassView::Repeated(self.wrapped())
        } else {
            ClassView::Mandatory
        }
    }
}

/// The one type argument of the outermost type constructor of `ty`, where it
/// is spelled `name` and has exactly one.
fn wrapped_by<'a>(ty: &'a TypeDescriptor, name: &str) -> (inner: Option<&'a TypeDescriptor>)
    ensures
        inner is Some <==> ty@.is_wrapper(name@),
        inner matches Some(found) ==> last_segment(*ty) matches Some(segment)
            && segment.arguments@.len() == 1 && *found == segment.arguments@[0]
            && stream_tokens(found.tokens) == ty@.wrapped(),
{
    match extract_type(ty) {
        Some(segment) => {
            if same_text(segment.ident.as_str(), name) && segment.arguments.len() == 1 {
                Some(&segment.arguments[0])
            } else {
                None
            }
        },
        None => None,
    }
}

/// Whether `ty` is the optional wrapper around one type.
pub fn is_option(ty: &TypeDescriptor) -> (b: bool)
    ensures
        b == ty@.is_option(),
{
    wrapped_by(ty, "Option").is_some()
}

/// Whether `ty` is the sequence wrapper around one type.
pub fn is_vector(ty: &TypeDescriptor) -> (b: bool)
    ensures
        b == ty@.is_vector(),
{
    wrapped_by(ty, "Vec").is_some()
}

/// Classifies a declared type. Total: every type has exactly one
/// classification.
pub fn classify<'a>(ty: &'a TypeDescriptor) -> (class: TypeClassification<'a>)
    ensures
        class@ == ty@.classification(),
        match class {
            TypeClassification::Mandatory => true,
            TypeClassification::Optional(inner) | TypeClassification::Repeated(inner) => {
                last_segment(*ty) matches Some(segment) && segment.arguments@.len() == 1
                    && *inner == segment.arguments@[0]
            },
        },
{
    match wrapped_by(ty, "Option") {
        Some(inner) => TypeClassification::Optional(inner),
        None => match wrapped_by(ty, "Vec") {
            Some(element) => TypeClassification::Repeated(element),
            None => TypeClassification::Mandatory,
        },
    }
}

/// Every type has exactly one of the three classifications: optional where
/// it is the optional wrapper, repeated where it is the sequence wrapper,
/// mandatory where it is neither; and no type is both wrappers.
pub proof fn lemma_classification_total(ty: TypeView)
    ensures
        !(ty.is_option() && ty.is_vector()),
        ty.classification().category() == Category::Optional <==> ty.is_option(),
        ty.classification().category() == Category::Repeated <==> ty.is_vector(),
        ty.classification().category() == Category::Mandatory <==> !ty.is_option()
            && !ty.is_vector(),
{
    reveal_strlit("Option");
    reveal_strlit("Vec");
    assert("Option"@.len() != "Vec"@.len());
}

} // verus!
