//! The validating `build` method of the builder.
//!
//! `build` first looks at every mandatory field, in the order of the schema,
//! and returns an error that names the first one that is not set. Then it
//! assembles the structure from copies of the slots: a mandatory field from
//! the value in its slot, an optional field from the slot as it is, a repeated
//! field from the collection in its slot or, where the slot is empty, from an
//! empty collection.

use crate::builder_spec::{BuilderModel, BuilderSpec, ClassifiedField, FieldModel};
use crate::classify::{Category, TypeClassification};
use crate::tokens::{
    alone, append, braces, empty_stream, joint, parens, push_alone, push_group, push_joint,
    push_string, push_word, quoted, stream_tokens, word, Delimiter, Token,
};
use crate::words::{lemma_message_is_plain, lemma_words, not_set_message};
use proc_macro2::TokenStream;
use vstd::prelude::*;
use vstd::string::*;

verus! {

/// `"field name is not set".into()`
pub open spec fn error_tokens(name: Seq<char>) -> Seq<Token> {
    seq![
        Token::Literal(quoted(not_set_message(name))),
        alone('.'),
        word("into"@),
        parens(Seq::empty()),
    ]
}

/// `return Err("field name is not set".into());`
pub open spec fn exit_tokens(name: Seq<char>) -> Seq<Token> {
    seq![word("return"@), word("Err"@), parens(error_tokens(name)), alone(';')]
}

/// `if self.name.is_none() { return Err("field name is not set".into()); }`
/// for a mandatory field, nothing for any other.
pub open spec fn check_tokens(field: FieldModel) -> Seq<Token> {
    if field.class is Mandatory {
        seq![
            word("if"@),
            word("self"@),
            alone('.'),
            word(field.name),
            alone('.'),
            word("is_none"@),
            parens(Seq::empty()),
            braces(exit_tokens(field.name)),
        ]
    } else {
        Seq::empty()
    }
}

/// The checks of `fields`, in order.
pub open spec fn checks_tokens(fields: Seq<FieldModel>) -> Seq<Token>
    decreases fields.len(),
{
    if fields.len() == 0 {
        Seq::empty()
    } else {
        checks_tokens(fields.drop_last()) + check_tokens(fields.last())
    }
}

/// `std::vec::Vec::new`
pub open spec fn vec_new_tokens() -> Seq<Token> {
    seq![
        word("std"@),
        joint(':'),
        alone(':'),
        word("vec"@),
        joint(':'),
        alone(':'),
        word("Vec"@),
        joint(':'),
        alone(':'),
        word("new"@),
    ]
}

/// What follows `self.name.clone()` in the structure's field: `.unwrap()`
/// for a mandatory field, nothing for an optional one,
/// `.unwrap_or_else(std::vec::Vec::new)` for a repeated one.
pub open spec fn fallback_tokens(category: Category) -> Seq<Token> {
    match category {
        Category::Mandatory => seq![alone('.'), word("unwrap"@), parens(Seq::empty())],
        Category::Optional => Seq::empty(),
        Category::Repeated => seq![
            alone('.'),
            word("unwrap_or_else"@),
            parens(vec_new_tokens()),
        ],
    }
}

/// `name: self.name.clone()` and what follows it for the field's kind.
pub open spec fn value_tokens(field: FieldModel) -> Seq<Token> {
    seq![
        word(field.name),
        alone(':'),
        word("self"@),
        alone('.'),
        word(field.name),
        alone('.'),
        word("clone"@),
        parens(Seq::empty()),
    ] + fallback_tokens(field.class.category())
}

/// The values of `fields`, in order, with a comma between each two.
pub open spec fn values_tokens(fields: Seq<FieldModel>) -> Seq<Token>
    decreases fields.len(),
{
    if fields.len() == 0 {
        Seq::empty()
    } else if fields.len() == 1 {
        value_tokens(fields[0])
    } else {
        values_tokens(fields.drop_last()) + seq![alone(',')] + value_tokens(fields.last())
    }
}

/// `std::result::Result<Name, std::boxed::Box<dyn std::error::Error>>`
pub open spec fn result_type_tokens(name: Seq<char>) -> Seq<Token> {
    seq![
        word("std"@),
        joint(':'),
        alone(':'),
        word("result"@),
        joint(':'),
        alone(':'),
        word("Result"@),
        alone('<'),
        word(name),
        alone(','),
        word("std"@),
        joint(':'),
        alone(':'),
        word("boxed"@),
        joint(':'),
        alone(':'),
        word("Box"@),
        alone('<'),
        word("dyn"@),
        word("std"@),
        joint(':'),
        alone(':'),
        word("error"@),
        joint(':'),
        alone(':'),
        word("Error"@),
        alone('>'),
        alone('>'),
    ]
}

/// `Name { values }`
pub open spec fn made_tokens(model: BuilderModel) -> Seq<Token> {
    seq![word(model.name), braces(values_tokens(model.fields))]
}

/// The body of `build`: the checks, then `Ok(Name { values })`.
pub open spec fn build_body_tokens(model: BuilderModel) -> Seq<Token> {
    checks_tokens(model.fields) + seq![word("Ok"@), parens(made_tokens(model))]
}

/// `&mut self`
pub open spec fn receiver_tokens() -> Seq<Token> {
    seq![alone('&'), word("mut"@), word("self"@)]
}

/// `pub fn build(&mut self) -> Result { body }`
pub open spec fn build_tokens(model: BuilderModel) -> Seq<Token> {
    seq![
        word("pub"@),
        word("fn"@),
        word("build"@),
        parens(receiver_tokens()),
        joint('-'),
        alone('>'),
    ] + result_type_tokens(model.name) + seq![braces(build_body_tokens(model))]
}

/// The check of one field.
fn field_check(field: &ClassifiedField) -> (out: TokenStream)
    ensures
        stream_tokens(out) == check_tokens(field@),
{
    proof {
        lemma_words();
    }
    let mut out = empty_stream();
    match field.classification {
        TypeClassification::Mandatory => {
            let name = field.descriptor.name.as_str();
            let mut message = String::from_str("field ");
            message.append(name);
            message.append(" is not set");
            proof {
                lemma_message_is_plain(name@);
            }
            let mut error = empty_stream();
            push_string(&mut error, message.as_str());
            push_alone(&mut error, '.');
            push_word(&mut error, "into");
            push_group(&mut error, Delimiter::Parenthesis, empty_stream());
            assert(stream_tokens(error) =~= error_tokens(name@));
            let mut exit = empty_stream();
            push_word(&mut exit, "return");
            push_word(&mut exit, "Err");
            push_group(&mut exit, Delimiter::Parenthesis, error);
            push_alone(&mut exit, ';');
            assert(stream_tokens(exit) =~= exit_tokens(name@));
            push_word(&mut out, "if");
            push_word(&mut out, "self");
            push_alone(&mut out, '.');
            push_word(&mut out, name);
            push_alone(&mut out, '.');
            push_word(&mut out, "is_none");
            push_group(&mut out, Delimiter::Parenthesis, empty_stream());
            push_group(&mut out, Delimiter::Brace, exit);
        },
        _ => {},
    }
    out
}

/// What follows the copy of a slot, for a field of kind `category`.
fn field_fallback(category: Category) -> (out: TokenStream)
    ensures
        stream_tokens(out) == fallback_tokens(category),
{
    proof {
        lemma_words();
    }
    let mut out = empty_stream();
    match category {
        Category::Mandatory => {
            push_alone(&mut out, '.');
            push_word(&mut out, "unwrap");
            push_group(&mut out, Delimiter::Parenthesis, empty_stream());
        },
        Category::Optional => {},
        Category::Repeated => {
            let mut make = empty_stream();
            push_word(&mut make, "std");
            push_joint(&mut make, ':');
            push_alone(&mut make, ':');
            push_word(&mut make, "vec");
            push_joint(&mut make, ':');
            push_alone(&mut make, ':');
            push_word(&mut make, "Vec");
            push_joint(&mut make, ':');
            push_alone(&mut make, ':');
            push_word(&mut make, "new");
            assert(stream_tokens(make) =~= vec_new_tokens());
            push_alone(&mut out, '.');
            push_word(&mut out, "unwrap_or_else");
            push_group(&mut out, Delimiter::Parenthesis, make);
        },
    }
    out
}

/// The value of one field of the structure.
fn field_value(field: &ClassifiedField) -> (out: TokenStream)
    ensures
        stream_tokens(out) == value_tokens(field@),
{
    proof {
        lemma_words();
    }
    let name = field.descriptor.name.as_str();
    let mut out = empty_stream();
    push_word(&mut out, name);
    push_alone(&mut out, ':');
    push_word(&mut out, "self");
    push_alone(&mut out, '.');
    push_word(&mut out, name);
    push_alone(&mut out, '.');
    push_word(&mut out, "clone");
    push_group(&mut out, Delimiter::Parenthesis, empty_stream());
    append(&mut out, field_fallback(field.classification.category()));
    out
}

/// The return type of `build` for the structure called `name`.
fn result_type(name: &str) -> (out: TokenStream)
    requires
        crate::ident::is_identifier(name@),
    ensures
        stream_tokens(out) == result_type_tokens(name@),
{
    proof {
        lemma_words();
    }
    let mut out = empty_stream();
    push_word(&mut out, "std");
    push_joint(&mut out, ':');
    push_alone(&mut out, ':');
    push_word(&mut out, "result");
    push_joint(&mut out, ':');
    push_alone(&mut out, ':');
    push_word(&mut out, "Result");
    push_alone(&mut out, '<');
    push_word(&mut out, name);
    push_alone(&mut out, ',');
    push_word(&mut out, "std");
    push_joint(&mut out, ':');
    push_alone(&mut out, ':');
    push_word(&mut out, "boxed");
    push_joint(&mut out, ':');
    push_alone(&mut out, ':');
    push_word(&mut out, "Box");
    push_alone(&mut out, '<');
    push_word(&mut out, "dyn");
    push_word(&mut out, "std");
    push_joint(&mut out, ':');
    push_alone(&mut out, ':');
    push_word(&mut out, "error");
    push_joint(&mut out, ':');
    push_alone(&mut out, ':');
    push_word(&mut out, "Error");
    push_alone(&mut out, '>');
    push_alone(&mut out, '>');
    out
}

/// The checks of the mandatory fields, in the order of the schema.
fn build_checks(spec: &BuilderSpec) -> (out: TokenStream)
    ensures
        stream_tokens(out) == checks_tokens(spec@.fields),
{
    let ghost fields = spec@.fields;
    let n: usize = spec.fields.len();
    let mut out = empty_stream();
    let mut i: usize = 0;
    while i < n
        invariant
            n == spec.fields@.len(),
            fields == spec@.fields,
            i <= n,
            stream_tokens(out) == checks_tokens(fields.take(i as int)),
        decreases n - i,
    {
        proof {
            assert(fields.take(i + 1).drop_last() =~= fields.take(i as int));
        }
        append(&mut out, field_check(&spec.fields[i]));
        i = i + 1;
    }
    assert(fields.take(n as int) =~= fields);
    out
}

/// The values of the structure's fields, in the order of the schema, with a
/// comma between each two.
fn build_values(spec: &BuilderSpec) -> (out: TokenStream)
    ensures
        stream_tokens(out) == values_tokens(spec@.fields),
{
    let ghost fields = spec@.fields;
    let n: usize = spec.fields.len();
    let mut out = empty_stream();
    let mut i: usize = 0;
    while i < n
        invariant
            n == spec.fields@.len(),
            fields == spec@.fields,
            i <= n,
            stream_tokens(out) == values_tokens(fields.take(i as int)),
        decreases n - i,
    {
        proof {
            assert(fields.take(i + 1).drop_last() =~= fields.take(i as int));
        }
        if i > 0 {
            push_alone(&mut out, ',');
        }
        append(&mut out, field_value(&spec.fields[i]));
        i = i + 1;
    }
    assert(fields.take(n as int) =~= fields);
    out
}

/// Synthesizes the `build` method: the checks of the mandatory fields, then
/// the structure assembled from the slots.
pub fn builder_build(spec: &BuilderSpec) -> (out: TokenStream)
    ensures
        stream_tokens(out) == build_tokens(spec@),
{
    proof {
        lemma_words();
    }
    let name = spec.original_type_name.as_str();
    let mut made = empty_stream();
    push_word(&mut made, name);
    push_group(&mut made, Delimiter::Brace, build_values(spec));
    assert(stream_tokens(made) =~= made_tokens(spec@));
    let mut body = build_checks(spec);
    push_word(&mut body, "Ok");
    push_group(&mut body, Delimiter::Parenthesis, made);
    assert(stream_tokens(body) =~= build_body_tokens(spec@));
    let mut receiver = empty_stream();
    push_alone(&mut receiver, '&');
    push_word(&mut receiver, "mut");
    push_word(&mut receiver, "self");
    assert(stream_tokens(receiver) =~= receiver_tokens());
    let mut out = empty_stream();
    push_word(&mut out, "pub");
    push_word(&mut out, "fn");
    push_word(&mut out, "build");
    push_group(&mut out, Delimiter::Parenthesis, receiver);
    push_joint(&mut out, '-');
    push_alone(&mut out, '>');
    append(&mut out, result_type(name));
    push_group(&mut out, Delimiter::Brace, body);
    out
}

} // verus!
