//! Generates the declarations of a companion builder for a structure with
//! named fields: the builder type, a factory on the original type, one setter
//! per field and a validating `build` method.
//!
//! [`derive`] is the generator as a whole. It classifies each field by its
//! declared type ([`classify`]), and from the classified schema
//! ([`builder_spec`]) synthesizes the builder type and its factory
//! ([`builder_type`]), the setters ([`setter`]) and `build`
//! ([`constructor`]), which [`fragment`] puts together.

pub mod builder_spec;
pub mod builder_type;
pub mod classify;
pub mod constructor;
pub mod fragment;
pub mod ident;
pub mod instance;
pub mod laws;
pub mod schema;
pub mod setter;
pub mod tokens;
pub mod words;

use crate::builder_spec::BuilderSpec;
use crate::builder_type::{builder_factory, builder_struct};
use crate::constructor::builder_build;
use crate::fragment::{assemble, fragment_tokens};
use crate::schema::DeriveInput;
use crate::setter::builder_setter;
use crate::tokens::stream_tokens;
use proc_macro2::TokenStream;
use vstd::prelude::*;

verus! {

/// Generates the builder of one definition.
///
/// The definition must be a structure with named fields; an enum, a union, a
/// tuple structure or a unit structure is not supported.
pub fn derive(input: &DeriveInput) -> (out: TokenStream)
    requires
        input@.data.has_named_fields(),
    ensures
        stream_tokens(out) == fragment_tokens(input@.builder_model()),
{
    let spec = BuilderSpec::of(input);
    let builder = spec.builder_name();
    assemble(
        &builder,
        builder_struct(&spec),
        builder_factory(&spec),
        builder_setter(&spec),
        builder_build(&spec),
    )
}

/// The fragment depends on nothing but what the generator reads of its
/// input: two definitions with the same view, whatever else may tell them
/// apart, have the same fragment, token for token.
pub proof fn lemma_same_schema_same_fragment(first: DeriveInput, second: DeriveInput)
    requires
        first@ == second@,
    ensures
        fragment_tokens(first@.builder_model()) == fragment_tokens(second@.builder_model()),
{
}

} // verus!
