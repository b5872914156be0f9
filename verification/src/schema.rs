//! The input of the generator: one structure, as its reader hands it over.
//!
//! A type is described by the tokens it was written with and, where it is a
//! path such as `std::option::Option<String>`, by the segments of that path,
//! each with its type arguments. The generator reads one level of this and no
//! more; the views below hold exactly what it reads.

use crate::ident::Identifier;
use crate::tokens::{stream_tokens, Token};
use proc_macro2::TokenStream;
use vstd::prelude::*;

verus! {

/// One segment of a path: its name as it is spelled, and the type arguments
/// between its angle brackets (none where it has no brackets).
#[derive(Debug)]
pub struct PathSegment {
    pub ident: String,
    pub arguments: Vec<TypeDescriptor>,
}

/// What kind of type expression a type is.
#[derive(Debug)]
pub enum TypeShape {
    /// A path, by its segments in order.
    Path(Vec<PathSegment>),
    /// Anything else: a reference, a tuple, an array, a function pointer.
    Other,
}

/// A type as a field declares it.
#[derive(Debug)]
pub struct TypeDescriptor {
    /// The type as it was written.
    pub tokens: TokenStream,
    pub shape: TypeShape,
}

/// One named field.
#[derive(Debug)]
pub struct FieldDescriptor {
    pub name: Identifier,
    pub declared_type: TypeDescriptor,
}

/// The fields of a structure.
#[derive(Debug)]
pub enum Fields {
    /// `{ name: Type, .. }`
    Named(Vec<FieldDescriptor>),
    /// `(Type, ..)`
    Unnamed,
    /// No fields at all.
    Unit,
}

/// What kind of item the definition is.
#[derive(Debug)]
pub enum Data {
    Struct(Fields),
    Enum,
    Union,
}

/// One definition, as the generator receives it.
#[derive(Debug)]
pub struct DeriveInput {
    pub ident: Identifier,
    pub data: Data,
}

/// A path segment, as far as the generator reads it: its name and the tokens
/// of each of its type arguments.
pub ghost struct SegmentView {
    pub ident: Seq<char>,
    pub arguments: Seq<Seq<Token>>,
}

/// A type, as far as the generator reads it.
pub ghost struct TypeView {
    pub tokens: Seq<Token>,
    /// The segments, where the type is a path.
    pub path: Option<Seq<SegmentView>>,
}

pub ghost struct FieldView {
    pub name: Seq<char>,
    pub declared_type: TypeView,
}

pub ghost enum FieldsView {
    Named(Seq<FieldView>),
    Unnamed,
    Unit,
}

pub ghost enum DataView {
    Struct(FieldsView),
    Enum,
    Union,
}

pub ghost struct SchemaView {
    pub ident: Seq<char>,
    pub data: DataView,
}

impl View for PathSegment {
    type V = SegmentView;

    open spec fn view(&self) -> SegmentView {
        SegmentView {
            ident: self.ident@,
            arguments: Seq::new(
                self.arguments@.len(),
                |i: int| stream_tokens(self.arguments@[i].tokens),
            ),
        }
    }
}

impl View for TypeDescriptor {
    type V = TypeView;

    open spec fn view(&self) -> TypeView {
        TypeView {
            tokens: stream_tokens(self.tokens),
            path: match self.shape {
                TypeShape::Path(segments) => Some(
                    Seq::new(segments@.len(), |i: int| segments@[i]@),
                ),
                TypeShape::Other => None,
            },
        }
    }
}

impl View for FieldDescriptor {
    type V = FieldView;

    open spec fn view(&self) -> FieldView {
        FieldView { name: self.name@, declared_type: self.declared_type@ }
    }
}

/// The views of `fields`, in order.
pub open spec fn field_views(fields: Seq<FieldDescriptor>) -> Seq<FieldView> {
    Seq::new(fields.len(), |i: int| fields[i]@)
}

impl View for Fields {
    type V = FieldsView;

    open spec fn view(&self) -> FieldsView {
        match self {
            Fields::Named(named) => FieldsView::Named(field_views(named@)),
            Fields::Unnamed => FieldsView::Unnamed,
            Fields::Unit => FieldsView::Unit,
        }
    }
}

impl View for Data {
    type V = DataView;

    open spec fn view(&self) -> DataView {
        match self {
            Data::Struct(fields) => DataView::Struct(fields@),
            Data::Enum => DataView::Enum,
            Data::Union => DataView::Union,
        }
    }
}

impl View for DeriveInput {
    type V = SchemaView;

    open spec fn view(&self) -> SchemaView {
        SchemaView { ident: self.ident@, data: self.data@ }
    }
}

impl DataView {
    /// Whether the definition is a structure with named fields, the one kind
    /// that a builder can be generated for.
    pub open spec fn has_named_fields(self) -> bool {
        self matches DataView::Struct(FieldsView::Named(_))
    }

    /// The named fields of such a structure.
    pub open spec fn named_fields(self) -> Seq<FieldView>
        recommends
            self.has_named_fields(),
    {
        match self {
            DataView::Struct(FieldsView::Named(named)) => named,
            _ => Seq::empty(),
        }
    }
}

impl Data {
    /// Whether the definition is a structure with named fields.
    pub fn has_named_fields(&self) -> (named: bool)
        ensures
            named == self@.has_named_fields(),
    {
        match self {
            Data::Struct(Fields::Named(_)) => true,
            _ => false,
        }
    }
}

/// The named fields of a structure. Any other kind of definition is
/// unsupported and left out.
pub fn extract_fields(data: &Data) -> (fields: &Vec<FieldDescriptor>)
    requires
        data@.has_named_fields(),
    ensures
        *data == Data::Struct(Fields::Named(*fields)),
        field_views(fields@) == data@.named_fields(),
{
    match data {
        Data::Struct(Fields::Named(named)) => named,
        _ => vstd::pervasive::unreached(),
    }
}

/// The last segment of a path type; `None` for a type that is no path, or a
/// path without segments.
pub open spec fn last_segment(ty: TypeDescriptor) -> Option<PathSegment> {
    match ty.shape {
        TypeShape::Path(segments) => if segments@.len() > 0 {
            Some(segments@.last())
        } else {
            None
        },
        TypeShape::Other => None,
    }
}

impl TypeView {
    /// The last segment of a path type, as the generator reads it.
    pub open spec fn last_segment(self) -> Option<SegmentView> {
        match self.path {
            Some(segments) => if segments.len() > 0 {
                Some(segments.last())
            } else {
                None
            },
            None => None,
        }
    }
}

/// The outermost type constructor of `ty`: the last segment of its path.
pub fn extract_type(ty: &TypeDescriptor) -> (segment: Option<&PathSegment>)
    ensures
        match segment {
            Some(found) => last_segment(*ty) == Some(*found) && ty@.last_segment() == Some(
                found@,
            ),
            None => last_segment(*ty) is None && ty@.last_segment() is None,
        },
{
    match &ty.shape {
        TypeShape::Path(segments) => {
            let n: usize = segments.len();
            if n > 0 {
                Some(&segments[n - 1])
            } else {
                None
            }
        },
        TypeShape::Other => None,
    }
}

} // verus!
