//! The fragment of declarations that make up a builder.
//!
//! The fragment holds, in this order, the builder type, the factory on the
//! original type, and the builder's methods: one setter per field in the
//! order of the schema, then `build`.

use crate::builder_spec::BuilderModel;
use crate::builder_type::{factory_tokens, struct_tokens};
use crate::constructor::build_tokens;
use crate::ident::Identifier;
use crate::setter::setters_tokens;
use crate::tokens::{
    append, braces, empty_stream, push_group, push_word, stream_tokens, word, Delimiter, Token,
};
use crate::words::{builder_name, lemma_words};
use proc_macro2::TokenStream;
use vstd::prelude::*;

verus! {

/// The builder's methods: the setters, then `build`.
pub open spec fn methods_tokens(model: BuilderModel) -> Seq<Token> {
    setters_tokens(model.fields) + build_tokens(model)
}

/// `impl NameBuilder { methods }`
pub open spec fn methods_block_tokens(model: BuilderModel) -> Seq<Token> {
    seq![word("impl"@), word(builder_name(model.name)), braces(methods_tokens(model))]
}

/// The whole fragment.
pub open spec fn fragment_tokens(model: BuilderModel) -> Seq<Token> {
    struct_tokens(model) + factory_tokens(model) + methods_block_tokens(model)
}

/// Puts the synthesized declarations together: the builder type, the
/// factory, and the setters and `build` inside one block of methods of the
/// builder called `builder`.
pub fn assemble(
    builder: &Identifier,
    builder_type: TokenStream,
    factory: TokenStream,
    setters: TokenStream,
    build: TokenStream,
) -> (out: TokenStream)
    ensures
        stream_tokens(out) == stream_tokens(builder_type) + stream_tokens(factory) + seq![
            word("impl"@),
            word(builder@),
            braces(stream_tokens(setters) + stream_tokens(build)),
        ],
{
    proof {
        lemma_words();
    }
    let mut methods = setters;
    append(&mut methods, build);
    let mut block = empty_stream();
    push_word(&mut block, "impl");
    push_word(&mut block, builder.as_str());
    push_group(&mut block, Delimiter::Brace, methods);
    let mut out = builder_type;
    append(&mut out, factory);
    append(&mut out, block);
    out
}

} // verus!
