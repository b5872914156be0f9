//! The builder type and the factory that starts a builder.
//!
//! The builder has one slot per field, in the order of the schema. A slot is
//! an `Option` of the type that the field's setter takes, and the factory
//! makes a builder in which every slot is `None`.

use crate::builder_spec::{BuilderModel, BuilderSpec, ClassifiedField, FieldModel};
use crate::tokens::{
    alone, append, braces, copy_stream, empty_stream, joint, parens, push_alone, push_group,
    push_joint, push_word, stream_tokens, word, Delimiter, Token,
};
use crate::words::{builder_name, lemma_words};
use proc_macro2::TokenStream;
use vstd::prelude::*;

verus! {

/// `name: Option<Stored>,`
pub open spec fn slot_tokens(field: FieldModel) -> Seq<Token> {
    seq![word(field.name), alone(':'), word("Option"@), alone('<')] + field.stored() + seq![
        alone('>'),
        alone(','),
    ]
}

/// The slots of `fields`, in order.
pub open spec fn slots_tokens(fields: Seq<FieldModel>) -> Seq<Token>
    decreases fields.len(),
{
    if fields.len() == 0 {
        Seq::empty()
    } else {
        slots_tokens(fields.drop_last()) + slot_tokens(fields.last())
    }
}

/// `pub struct NameBuilder { slots }`
pub open spec fn struct_tokens(model: BuilderModel) -> Seq<Token> {
    seq![
        word("pub"@),
        word("struct"@),
        word(builder_name(model.name)),
        braces(slots_tokens(model.fields)),
    ]
}

/// `name: None`
pub open spec fn empty_slot_tokens(field: FieldModel) -> Seq<Token> {
    seq![word(field.name), alone(':'), word("None"@)]
}

/// The empty slots of `fields`, in order, with a comma between each two.
pub open spec fn empty_slots_tokens(fields: Seq<FieldModel>) -> Seq<Token>
    decreases fields.len(),
{
    if fields.len() == 0 {
        Seq::empty()
    } else if fields.len() == 1 {
        empty_slot_tokens(fields[0])
    } else {
        empty_slots_tokens(fields.drop_last()) + seq![alone(',')] + empty_slot_tokens(
            fields.last(),
        )
    }
}

/// `NameBuilder { empty slots }`
pub open spec fn fresh_builder_tokens(model: BuilderModel) -> Seq<Token> {
    seq![word(builder_name(model.name)), braces(empty_slots_tokens(model.fields))]
}

/// `pub fn builder() -> NameBuilder { NameBuilder { empty slots } }`
pub open spec fn factory_method_tokens(model: BuilderModel) -> Seq<Token> {
    seq![
        word("pub"@),
        word("fn"@),
        word("builder"@),
        parens(Seq::empty()),
        joint('-'),
        alone('>'),
        word(builder_name(model.name)),
        braces(fresh_builder_tokens(model)),
    ]
}

/// `impl Name { pub fn builder() -> NameBuilder { .. } }`
pub open spec fn factory_tokens(model: BuilderModel) -> Seq<Token> {
    seq![word("impl"@), word(model.name), braces(factory_method_tokens(model))]
}

/// The slot of one field.
fn field_slot(field: &ClassifiedField) -> (out: TokenStream)
    ensures
        stream_tokens(out) == slot_tokens(field@),
{
    proof {
        lemma_words();
    }
    let mut out = empty_stream();
    push_word(&mut out, field.descriptor.name.as_str());
    push_alone(&mut out, ':');
    push_word(&mut out, "Option");
    push_alone(&mut out, '<');
    append(&mut out, copy_stream(&field.stored_type().tokens));
    push_alone(&mut out, '>');
    push_alone(&mut out, ',');
    out
}

/// Synthesizes the builder type: one slot per field, in the order of the
/// schema.
pub fn builder_struct(spec: &BuilderSpec) -> (out: TokenStream)
    ensures
        stream_tokens(out) == struct_tokens(spec@),
{
    proof {
        lemma_words();
    }
    let ghost fields = spec@.fields;
    let n: usize = spec.fields.len();
    let mut slots = empty_stream();
    let mut i: usize = 0;
    while i < n
        invariant
            n == spec.fields@.len(),
            fields == spec@.fields,
            i <= n,
            stream_tokens(slots) == slots_tokens(fields.take(i as int)),
        decreases n - i,
    {
        proof {
            assert(fields.take(i + 1).drop_last() =~= fields.take(i as int));
        }
        append(&mut slots, field_slot(&spec.fields[i]));
        i = i + 1;
    }
    assert(fields.take(n as int) =~= fields);
    let name = spec.builder_name();
    let mut out = empty_stream();
    push_word(&mut out, "pub");
    push_word(&mut out, "struct");
    push_word(&mut out, name.as_str());
    push_group(&mut out, Delimiter::Brace, slots);
    out
}

/// Synthesizes the factory on the original type: a function without
/// arguments that returns a builder in which every slot is empty.
pub fn builder_factory(spec: &BuilderSpec) -> (out: TokenStream)
    ensures
        stream_tokens(out) == factory_tokens(spec@),
{
    proof {
        lemma_words();
    }
    let ghost fields = spec@.fields;
    let n: usize = spec.fields.len();
    let mut slots = empty_stream();
    let mut i: usize = 0;
    while i < n
        invariant
            n == spec.fields@.len(),
            fields == spec@.fields,
            i <= n,
            stream_tokens(slots) == empty_slots_tokens(fields.take(i as int)),
        decreases n - i,
    {
        proof {
            assert(fields.take(i + 1).drop_last() =~= fields.take(i as int));
            lemma_words();
        }
        if i > 0 {
            push_alone(&mut slots, ',');
        }
        push_word(&mut slots, spec.fields[i].descriptor.name.as_str());
        push_alone(&mut slots, ':');
        push_word(&mut slots, "None");
        i = i + 1;
    }
    assert(fields.take(n as int) =~= fields);
    let name = spec.builder_name();
    let mut fresh = empty_stream();
    push_word(&mut fresh, name.as_str());
    push_group(&mut fresh, Delimiter::Brace, slots);
    assert(stream_tokens(fresh) =~= fresh_builder_tokens(spec@));
    let mut method = empty_stream();
    push_word(&mut method, "pub");
    push_word(&mut method, "fn");
    push_word(&mut method, "builder");
    push_group(&mut method, Delimiter::Parenthesis, empty_stream());
    push_joint(&mut method, '-');
    push_alone(&mut method, '>');
    push_word(&mut method, name.as_str());
    push_group(&mut method, Delimiter::Brace, fresh);
    assert(stream_tokens(method) =~= factory_method_tokens(spec@));
    let mut out = empty_stream();
    push_word(&mut out, "impl");
    push_word(&mut out, spec.original_type_name.as_str());
    push_group(&mut out, Delimiter::Brace, method);
    out
}

} // verus!
