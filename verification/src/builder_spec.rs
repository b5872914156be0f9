//! The classified schema: what the synthesizers work from.

use crate::classify::{classify, ClassView, TypeClassification};
use crate::ident::Identifier;
use crate::schema::{
    extract_fields, field_views, DeriveInput, FieldDescriptor, FieldView, SchemaView,
    TypeDescriptor,
};
use crate::tokens::{stream_tokens, Token};
use crate::words::{builder_name, lemma_words};
use vstd::prelude::*;

verus! {

/// One field with its classification.
pub struct ClassifiedField<'a> {
    pub descriptor: &'a FieldDescriptor,
    pub classification: TypeClassification<'a>,
}

/// The structure's name and its fields, classified, in the order in which
/// they were declared.
pub struct BuilderSpec<'a> {
    pub original_type_name: &'a Identifier,
    pub fields: Vec<ClassifiedField<'a>>,
}

/// A classified field, as the synthesizers read it.
pub ghost struct FieldModel {
    pub name: Seq<char>,
    /// The tokens of the declared type.
    pub declared: Seq<Token>,
    pub class: ClassView,
}

/// A classified schema, as the synthesizers read it.
pub ghost struct BuilderModel {
    pub name: Seq<char>,
    pub fields: Seq<FieldModel>,
}

impl FieldModel {
    /// The field `field` with the classification of its declared type.
    pub open spec fn classified(field: FieldView) -> FieldModel {
        FieldModel {
            name: field.name,
            declared: field.declared_type.tokens,
            class: field.declared_type.classification(),
        }
    }

    /// The type of the value that the field's slot holds when it is set, and
    /// that its setter takes: for an optional field the type inside the
    /// wrapper, for any other field the declared type. The slot of an
    /// optional field is therefore not wrapped twice.
    pub open spec fn stored(self) -> Seq<Token> {
        match self.class {
            ClassView::Optional(inner) => inner,
            _ => self.declared,
        }
    }
}

/// The fields `fields`, each with the classification of its declared type.
pub open spec fn classified_fields(fields: Seq<FieldView>) -> Seq<FieldModel> {
    Seq::new(fields.len(), |i: int| FieldModel::classified(fields[i]))
}

impl SchemaView {
    /// The classified schema of a structure with named fields.
    pub open spec fn builder_model(self) -> BuilderModel
        recommends
            self.data.has_named_fields(),
    {
        BuilderModel { name: self.ident, fields: classified_fields(self.data.named_fields()) }
    }
}

impl<'a> View for ClassifiedField<'a> {
    type V = FieldModel;

    open spec fn view(&self) -> FieldModel {
        FieldModel {
            name: self.descriptor.name@,
            declared: stream_tokens(self.descriptor.declared_type.tokens),
            class: self.classification@,
        }
    }
}

impl<'a> View for BuilderSpec<'a> {
    type V = BuilderModel;

    open spec fn view(&self) -> BuilderModel {
        BuilderModel {
            name: self.original_type_name@,
            fields: Seq::new(self.fields@.len(), |i: int| self.fields@[i]@),
        }
    }
}

impl<'a> ClassifiedField<'a> {
    /// The field `descriptor` with the classification of its declared type.
    pub fn new(descriptor: &'a FieldDescriptor) -> (field: ClassifiedField<'a>)
        ensures
            field.descriptor == descriptor,
            field@ == FieldModel::classified(descriptor@),
    {
        ClassifiedField { descriptor, classification: classify(&descriptor.declared_type) }
    }

    /// The type of the value that the field's slot holds when it is set.
    pub fn stored_type(&self) -> (ty: &'a TypeDescriptor)
        ensures
            stream_tokens(ty.tokens) == self@.stored(),
    {
        match self.classification {
            TypeClassification::Optional(inner) => inner,
            _ => &self.descriptor.declared_type,
        }
    }
}

impl<'a> BuilderSpec<'a> {
    /// Classifies each of `fields`, keeping their order.
    pub fn new(name: &'a Identifier, fields: &'a Vec<FieldDescriptor>) -> (spec: BuilderSpec<'a>)
        ensures
            spec.original_type_name == name,
            spec@.name == name@,
            spec@.fields == classified_fields(field_views(fields@)),
    {
        let mut classified: Vec<ClassifiedField<'a>> = Vec::new();
        let n: usize = fields.len();
        let mut i: usize = 0;
        while i < n
            invariant
                n == fields@.len(),
                i <= n,
                classified@.len() == i,
                forall|j: int|
                    0 <= j < i ==> (#[trigger] classified@[j])@ == FieldModel::classified(
                        fields@[j]@,
                    ),
            decreases n - i,
        {
            classified.push(ClassifiedField::new(&fields[i]));
            i = i + 1;
        }
        let spec = BuilderSpec { original_type_name: name, fields: classified };
        spec
    }

    /// The name of the builder: the structure's name followed by `Builder`.
    pub fn builder_name(&self) -> (name: Identifier)
        ensures
            name@ == builder_name(self@.name),
    {
        proof {
            lemma_words();
        }
        self.original_type_name.with_suffix(&Identifier::from_word("Builder"))
    }

    /// The classified schema of a structure with named fields.
    pub fn of(input: &'a DeriveInput) -> (spec: BuilderSpec<'a>)
        requires
            input@.data.has_named_fields(),
        ensures
            spec@ == input@.builder_model(),
    {
        BuilderSpec::new(&input.ident, extract_fields(&input.data))
    }
}

} // verus!
