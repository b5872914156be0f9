//! The setters of the builder, one per field.
//!
//! A setter takes one value of the type that the field's slot holds, stores
//! it in the slot in place of whatever was there, and hands the builder back
//! so that calls can be chained.

use crate::builder_spec::{BuilderSpec, ClassifiedField, FieldModel};
use crate::tokens::{
    alone, append, braces, copy_stream, empty_stream, joint, parens, push_alone, push_group,
    push_joint, push_word, stream_tokens, word, Delimiter, Token,
};
use crate::words::lemma_words;
use proc_macro2::TokenStream;
use vstd::prelude::*;

verus! {

/// `&mut self, name: Stored`
pub open spec fn setter_parameters_tokens(field: FieldModel) -> Seq<Token> {
    seq![alone('&'), word("mut"@), word("self"@), alone(','), word(field.name), alone(':')]
        + field.stored()
}

/// `self.name = Some(name); self`
pub open spec fn setter_body_tokens(name: Seq<char>) -> Seq<Token> {
    seq![
        word("self"@),
        alone('.'),
        word(name),
        alone('='),
        word("Some"@),
        parens(seq![word(name)]),
        alone(';'),
        word("self"@),
    ]
}

/// `fn name(&mut self, name: Stored) -> &mut Self { self.name = Some(name); self }`
pub open spec fn setter_tokens(field: FieldModel) -> Seq<Token> {
    seq![
        word("fn"@),
        word(field.name),
        parens(setter_parameters_tokens(field)),
        joint('-'),
        alone('>'),
        alone('&'),
        word("mut"@),
        word("Self"@),
        braces(setter_body_tokens(field.name)),
    ]
}

/// The setters of `fields`, in order.
pub open spec fn setters_tokens(fields: Seq<FieldModel>) -> Seq<Token>
    decreases fields.len(),
{
    if fields.len() == 0 {
        Seq::empty()
    } else {
        setters_tokens(fields.drop_last()) + setter_tokens(fields.last())
    }
}

/// Synthesizes the setter of one field.
pub fn field_setter(field: &ClassifiedField) -> (out: TokenStream)
    ensures
        stream_tokens(out) == setter_tokens(field@),
{
    proof {
        lemma_words();
    }
    let name = field.descriptor.name.as_str();
    let mut parameters = empty_stream();
    push_alone(&mut parameters, '&');
    push_word(&mut parameters, "mut");
    push_word(&mut parameters, "self");
    push_alone(&mut parameters, ',');
    push_word(&mut parameters, name);
    push_alone(&mut parameters, ':');
    append(&mut parameters, copy_stream(&field.stored_type().tokens));
    assert(stream_tokens(parameters) =~= setter_parameters_tokens(field@));
    let mut value = empty_stream();
    push_word(&mut value, name);
    let mut body = empty_stream();
    push_word(&mut body, "self");
    push_alone(&mut body, '.');
    push_word(&mut body, name);
    push_alone(&mut body, '=');
    push_word(&mut body, "Some");
    push_group(&mut body, Delimiter::Parenthesis, value);
    push_alone(&mut body, ';');
    push_word(&mut body, "self");
    assert(stream_tokens(body) =~= setter_body_tokens(name@));
    let mut out = empty_stream();
    push_word(&mut out, "fn");
    push_word(&mut out, name);
    push_group(&mut out, Delimiter::Parenthesis, parameters);
    push_joint(&mut out, '-');
    push_alone(&mut out, '>');
    push_alone(&mut out, '&');
    push_word(&mut out, "mut");
    push_word(&mut out, "Self");
    push_group(&mut out, Delimiter::Brace, body);
    out
}

/// Synthesizes the setters: one per field, in the order of the schema,
/// whatever the field's kind.
pub fn builder_setter(spec: &BuilderSpec) -> (out: TokenStream)
    ensures
        stream_tokens(out) == setters_tokens(spec@.fields),
{
    let ghost fields = spec@.fields;
    let n: usize = spec.fields.len();
    let mut out = empty_stream();
    let mut i: usize = 0;
    while i < n
        invariant
            n == spec.fields@.len(),
            fields == spec@.fields,
            i <= n,
            stream_tokens(out) == setters_tokens(fields.take(i as int)),
        decreases n - i,
    {
        proof {
            assert(fields.take(i + 1).drop_last() =~= fields.take(i as int));
        }
        append(&mut out, field_setter(&spec.fields[i]));
        i = i + 1;
    }
    assert(fields.take(n as int) =~= fields);
    out
}

} // verus!
