//! The fixed words of the generated declarations.

use crate::ident::is_identifier;
use crate::tokens::is_plain_text;
use vstd::prelude::*;

verus! {

/// The suffix that makes the builder's name out of the structure's name.
pub open spec fn builder_suffix() -> Seq<char> {
    "Builder"@
}

/// The name of the builder of the structure called `name`.
pub open spec fn builder_name(name: Seq<char>) -> Seq<char> {
    name + builder_suffix()
}

/// The message of the error that `build` returns where the mandatory field
/// `name` is not set.
pub open spec fn not_set_message(name: Seq<char>) -> Seq<char> {
    "field "@ + name + " is not set"@
}

/// Each fixed word of the generated declarations is an identifier.
pub(crate) proof fn lemma_words()
    ensures
        is_identifier("pub"@),
        is_identifier("struct"@),
        is_identifier("impl"@),
        is_identifier("fn"@),
        is_identifier("builder"@),
        is_identifier("build"@),
        is_identifier("mut"@),
        is_identifier("self"@),
        is_identifier("Self"@),
        is_identifier("Option"@),
        is_identifier("None"@),
        is_identifier("Some"@),
        is_identifier("if"@),
        is_identifier("is_none"@),
        is_identifier("return"@),
        is_identifier("Err"@),
        is_identifier("into"@),
        is_identifier("Ok"@),
        is_identifier("clone"@),
        is_identifier("unwrap"@),
        is_identifier("unwrap_or_else"@),
        is_identifier("std"@),
        is_identifier("vec"@),
        is_identifier("Vec"@),
        is_identifier("new"@),
        is_identifier("result"@),
        is_identifier("Result"@),
        is_identifier("boxed"@),
        is_identifier("Box"@),
        is_identifier("dyn"@),
        is_identifier("error"@),
        is_identifier("Error"@),
        is_identifier("Builder"@),
{
    reveal_strlit("pub");
    reveal_strlit("struct");
    reveal_strlit("impl");
    reveal_strlit("fn");
    reveal_strlit("builder");
    reveal_strlit("build");
    reveal_strlit("mut");
    reveal_strlit("self");
    reveal_strlit("Self");
    reveal_strlit("Option");
    reveal_strlit("None");
    reveal_strlit("Some");
    reveal_strlit("if");
    reveal_strlit("is_none");
    reveal_strlit("return");
    reveal_strlit("Err");
    reveal_strlit("into");
    reveal_strlit("Ok");
    reveal_strlit("clone");
    reveal_strlit("unwrap");
    reveal_strlit("unwrap_or_else");
    reveal_strlit("std");
    reveal_strlit("vec");
    reveal_strlit("Vec");
    reveal_strlit("new");
    reveal_strlit("result");
    reveal_strlit("Result");
    reveal_strlit("boxed");
    reveal_strlit("Box");
    reveal_strlit("dyn");
    reveal_strlit("error");
    reveal_strlit("Error");
    reveal_strlit("Builder");
}

/// The message about an identifier is plain text: a string literal shows it
/// as it is.
pub(crate) proof fn lemma_message_is_plain(name: Seq<char>)
    requires
        is_identifier(name),
    ensures
        is_plain_text(not_set_message(name)),
{
    reveal_strlit("field ");
    reveal_strlit(" is not set");
}

} // verus!
