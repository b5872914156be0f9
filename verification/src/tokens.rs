//! Token streams and the operations on them that the generator needs.
//!
//! A stream is a `proc_macro2::TokenStream`. Verus sees nothing inside one:
//! what a stream holds is named by [`stream_tokens`], and the functions in the
//! first half of this file say, without proof, what the `proc_macro2` calls in
//! their bodies do to that content. The second half is verified against them.

use crate::ident::{is_ident_continue, is_identifier};
use proc_macro2::TokenStream;
use vstd::prelude::*;

verus! {

/// How a group of tokens is delimited.
#[derive(Clone, Copy, Debug, PartialEq, Eq, Structural)]
pub enum Delimiter {
    /// `( ... )`
    Parenthesis,
    /// `{ ... }`
    Brace,
    /// `[ ... ]`
    Bracket,
    /// No marks at all: the group only keeps its tokens together.
    Invisible,
}

/// Whether a punctuation mark is glued to the one that follows it.
#[derive(Clone, Copy, Debug, PartialEq, Eq, Structural)]
pub enum Spacing {
    /// Something else than punctuation follows, or nothing: `+` in `+ x`.
    Alone,
    /// Punctuation follows at once: the first `:` of `::`.
    Joint,
}

/// One token tree, as a mathematical value. Spans are left out.
pub ghost enum Token {
    /// A word: a keyword or an identifier, by its text.
    Ident(Seq<char>),
    /// A punctuation mark, by its character and its spacing.
    Punct(char, Spacing),
    /// A literal, by its text as it is printed.
    Literal(Seq<char>),
    /// A delimited sequence of tokens.
    Group(Delimiter, Seq<Token>),
}

/// The characters that can stand as punctuation in a token stream.
pub open spec fn is_punct_char(ch: char) -> bool {
    ch == '!' || ch == '#' || ch == '$' || ch == '%' || ch == '&' || ch == '\'' || ch == '*'
        || ch == '+' || ch == ',' || ch == '-' || ch == '.' || ch == '/' || ch == ':' || ch == ';'
        || ch == '<' || ch == '=' || ch == '>' || ch == '?' || ch == '@' || ch == '^' || ch == '|'
        || ch == '~'
}

/// Text that a string literal shows as it is, with no escape: letters,
/// digits, `_` and spaces.
pub open spec fn is_plain_text(s: Seq<char>) -> bool {
    forall|i: int| 0 <= i < s.len() ==> is_ident_continue(#[trigger] s[i]) || s[i] == ' '
}

/// The text of the string literal whose value is the plain text `s`.
pub open spec fn quoted(s: Seq<char>) -> Seq<char> {
    seq!['"'] + s + seq!['"']
}

#[verifier::external_type_specification]
#[verifier::external_body]
pub struct ExTokenStream(TokenStream);

/// The token trees that a stream holds, in order: an identifier by its
/// text, a punctuation mark by its character and spacing, a literal by its
/// printed text, a group by its delimiter and the trees of its own stream.
pub uninterp spec fn stream_tokens(stream: TokenStream) -> Seq<Token>;

/// `TokenStream::new`: a stream that holds nothing.
#[verifier::external_body]
pub(crate) fn empty_stream() -> (stream: TokenStream)
    ensures
        stream_tokens(stream) == Seq::<Token>::empty(),
{
    TokenStream::new()
}

/// `Ident::new` at the call site's span, as a stream of its own: the one word
/// `word`. `Ident::new` panics on text that is no identifier, which
/// `requires` leaves out.
#[verifier::external_body]
pub(crate) fn ident_stream(word: &str) -> (stream: TokenStream)
    requires
        is_identifier(word@),
    ensures
        stream_tokens(stream) == seq![Token::Ident(word@)],
{
    let ident = proc_macro2::Ident::new(word, proc_macro2::Span::call_site());
    TokenStream::from(proc_macro2::TokenTree::Ident(ident))
}

/// `Punct::new`, as a stream of its own: the one punctuation mark `ch` with
/// the spacing `spacing`. `Punct::new` panics on any other character than
/// those of `is_punct_char`.
#[verifier::external_body]
pub(crate) fn punct_stream(ch: char, spacing: Spacing) -> (stream: TokenStream)
    requires
        is_punct_char(ch),
    ensures
        stream_tokens(stream) == seq![Token::Punct(ch, spacing)],
{
    let outside = match spacing {
        Spacing::Alone => proc_macro2::Spacing::Alone,
        Spacing::Joint => proc_macro2::Spacing::Joint,
    };
    TokenStream::from(proc_macro2::TokenTree::Punct(proc_macro2::Punct::new(ch, outside)))
}

/// `Literal::string`, as a stream of its own: the one string literal whose
/// value is `text`. The literal's text is `text` between double quotes, each
/// character escaped where Rust's syntax asks for it; plain text has no such
/// character.
#[verifier::external_body]
pub(crate) fn string_stream(text: &str) -> (stream: TokenStream)
    requires
        is_plain_text(text@),
    ensures
        stream_tokens(stream) == seq![Token::Literal(quoted(text@))],
{
    TokenStream::from(proc_macro2::TokenTree::Literal(proc_macro2::Literal::string(text)))
}

/// `Group::new`, as a stream of its own: the one group that holds the trees
/// of `inner` between the marks of `delimiter`.
#[verifier::external_body]
pub(crate) fn group_stream(delimiter: Delimiter, inner: TokenStream) -> (stream: TokenStream)
    ensures
        stream_tokens(stream) == seq![Token::Group(delimiter, stream_tokens(inner))],
{
    let outside = match delimiter {
        Delimiter::Parenthesis => proc_macro2::Delimiter::Parenthesis,
        Delimiter::Brace => proc_macro2::Delimiter::Brace,
        Delimiter::Bracket => proc_macro2::Delimiter::Bracket,
        Delimiter::Invisible => proc_macro2::Delimiter::None,
    };
    TokenStream::from(proc_macro2::TokenTree::Group(proc_macro2::Group::new(outside, inner)))
}

/// `Extend<TokenStream>::extend` with one stream: the trees of `tail` are
/// added behind those that `stream` holds, in their order.
#[verifier::external_body]
pub(crate) fn append(stream: &mut TokenStream, tail: TokenStream)
    ensures
        stream_tokens(*final(stream)) == stream_tokens(*old(stream)) + stream_tokens(tail),
{
    stream.extend(core::iter::once(tail));
}

/// `Clone::clone` of a stream: a stream that holds the same trees.
#[verifier::external_body]
pub(crate) fn copy_stream(stream: &TokenStream) -> (copy: TokenStream)
    ensures
        stream_tokens(copy) == stream_tokens(*stream),
{
    stream.clone()
}

/// The word `text` as a token.
pub open spec fn word(text: Seq<char>) -> Token {
    Token::Ident(text)
}

/// The punctuation mark `ch`, followed by something else than punctuation.
pub open spec fn alone(ch: char) -> Token {
    Token::Punct(ch, Spacing::Alone)
}

/// The punctuation mark `ch`, glued to the punctuation mark that follows.
pub open spec fn joint(ch: char) -> Token {
    Token::Punct(ch, Spacing::Joint)
}

/// The tokens `inner` between parentheses.
pub open spec fn parens(inner: Seq<Token>) -> Token {
    Token::Group(Delimiter::Parenthesis, inner)
}

/// The tokens `inner` between braces.
pub open spec fn braces(inner: Seq<Token>) -> Token {
    Token::Group(Delimiter::Brace, inner)
}

/// Adds the word `text` to `stream`.
pub(crate) fn push_word(stream: &mut TokenStream, text: &str)
    requires
        is_identifier(text@),
    ensures
        stream_tokens(*final(stream)) == stream_tokens(*old(stream)).push(word(text@)),
{
    append(stream, ident_stream(text));
}

/// Adds the punctuation mark `ch` to `stream`, followed by something else
/// than punctuation.
pub(crate) fn push_alone(stream: &mut TokenStream, ch: char)
    requires
        is_punct_char(ch),
    ensures
        stream_tokens(*final(stream)) == stream_tokens(*old(stream)).push(alone(ch)),
{
    append(stream, punct_stream(ch, Spacing::Alone));
}

/// Adds the punctuation mark `ch` to `stream`, glued to the one that follows.
pub(crate) fn push_joint(stream: &mut TokenStream, ch: char)
    requires
        is_punct_char(ch),
    ensures
        stream_tokens(*final(stream)) == stream_tokens(*old(stream)).push(joint(ch)),
{
    append(stream, punct_stream(ch, Spacing::Joint));
}

/// Adds to `stream` the string literal whose value is `text`.
pub(crate) fn push_string(stream: &mut TokenStream, text: &str)
    requires
        is_plain_text(text@),
    ensures
        stream_tokens(*final(stream)) == stream_tokens(*old(stream)).push(
            Token::Literal(quoted(text@)),
        ),
{
    append(stream, string_stream(text));
}

/// Adds to `stream` the group of `inner` between the marks of `delimiter`.
pub(crate) fn push_group(stream: &mut TokenStream, delimiter: Delimiter, inner: TokenStream)
    ensures
        stream_tokens(*final(stream)) == stream_tokens(*old(stream)).push(
            Token::Group(delimiter, stream_tokens(inner)),
        ),
{
    append(stream, group_stream(delimiter, inner));
}

} // verus!
