//! Token streams: what a stream holds, and the calls that build one.

use proc_macro2::{Ident, Span, TokenStream};
use vstd::prelude::*;

use crate::ident::plain_identifier;

verus! {

/// How a group of tokens is enclosed.
#[derive(Clone, Copy, PartialEq, Eq, Structural)]
pub enum Delimiter {
    Parenthesis,
    Brace,
    Bracket,
    Invisible,
}

/// Whether a punctuation character is glued to the one that follows it.
#[derive(Clone, Copy, PartialEq, Eq, Structural)]
pub enum Spacing {
    Alone,
    Joint,
}

/// One token tree, without the place in the source that it came from.
pub enum Token {
    Ident(Seq<char>),
    Punct(char, Spacing),
    /// A string literal without a suffix, by the characters that it stands for, however they are
    /// escaped.
    Text(Seq<char>),
    /// Any other literal, as it is written.
    Literal(Seq<char>),
    Group(Delimiter, Seq<Token>),
}

/// The concatenation of `piece(0)`, ..., `piece(count - 1)`.
pub open spec fn joined(count: nat, piece: spec_fn(int) -> Seq<Token>) -> Seq<Token>
    decreases count,
{
    if count == 0 {
        Seq::empty()
    } else {
        joined((count - 1) as nat, piece) + piece(count - 1)
    }
}

/// The characters that `Punct::new` accepts.
pub open spec fn is_punctuation(c: char) -> bool {
    c == '!' || c == '#' || c == '$' || c == '%' || c == '&' || c == '\'' || c == '*' || c == '+'
        || c == ',' || c == '-' || c == '.' || c == '/' || c == ':' || c == ';' || c == '<'
        || c == '=' || c == '>' || c == '?' || c == '@' || c == '^' || c == '|' || c == '~'
}

/// The digits of `n` in base ten, most significant first.
pub open spec fn decimal(n: nat) -> Seq<char>
    decreases n,
{
    if n < 10 {
        seq![digit(n)]
    } else {
        decimal(n / 10).push(digit(n % 10))
    }
}

/// The character for a digit below ten.
pub open spec fn digit(n: nat) -> char {
    (('0' as nat + n) as char)
}

/// `proc_macro2::TokenStream`, opaque here.
#[verifier::external_type_specification]
#[verifier::external_body]
pub struct ExTokenStream(TokenStream);

/// `proc_macro2::Ident`, opaque here.
#[verifier::external_type_specification]
#[verifier::external_body]
pub struct ExIdent(proc_macro2::Ident);

/// `proc_macro2::Span`, a place in the source, opaque here.
#[verifier::external_type_specification]
#[verifier::external_body]
pub struct ExSpan(Span);

/// The token trees that a stream holds, in order.
pub uninterp spec fn stream_tokens(stream: TokenStream) -> Seq<Token>;

/// The characters that an identifier holds, a leading `r#` among them.
pub uninterp spec fn ident_text(ident: Ident) -> Seq<char>;

/// The place in the source that an identifier points to and resolves at.
pub uninterp spec fn ident_span(ident: Ident) -> Span;

/// A stretch of the source, by the places of its first and its last token.
pub struct Place {
    pub first: Span,
    pub last: Span,
}

/// The stretch of the source that the tokens of a stream point to, where it has any.
pub uninterp spec fn stream_place(stream: TokenStream) -> Place;

/// The stretch of the source that a stream points to, or `None` where it has no tokens.
pub open spec fn place_of(stream: TokenStream) -> Option<Place> {
    if stream_tokens(stream).len() == 0 {
        None
    } else {
        Some(stream_place(stream))
    }
}

/// The stretch of the source that an identifier alone points to.
pub open spec fn ident_place(ident: Ident) -> Place {
    Place { first: ident_span(ident), last: ident_span(ident) }
}

/// The tokens of a stream that may be missing.
pub open spec fn option_tokens(stream: Option<TokenStream>) -> Option<Seq<Token>> {
    match stream {
        Some(stream) => Some(stream_tokens(stream)),
        None => None,
    }
}

/// The text that a stream prints as. Two streams with the same token trees can print differently:
/// inside a compiler the spacing of the source counts, which token trees do not show.
pub uninterp spec fn printed(stream: TokenStream) -> Seq<char>;

/// `TokenStream::new` gives a stream without tokens.
pub assume_specification[ TokenStream::new ]() -> (stream: TokenStream)
    ensures
        stream_tokens(stream) == Seq::<Token>::empty(),
;

/// `TokenStream::clone` gives the same stream again: the same tokens, which print the same.
pub assume_specification[ <TokenStream as Clone>::clone ](stream: &TokenStream) -> (copy: TokenStream)
    ensures
        copy == *stream,
;

/// `Ident::clone` gives the same identifier again.
pub assume_specification[ <proc_macro2::Ident as Clone>::clone ](
    ident: &proc_macro2::Ident,
) -> (copy: proc_macro2::Ident)
    ensures
        copy == *ident,
;

/// `Ident::new` on ASCII text holds the characters and the place that it is given. It panics on anything but an
/// identifier. Beyond ASCII it goes by the tables at hand and may compose characters: see
/// `crate::ident::ident_beyond_ascii`.
pub assume_specification[ proc_macro2::Ident::new ](
    string: &str,
    span: Span,
) -> (ident: proc_macro2::Ident)
    requires
        plain_identifier(string@),
    ensures
        ident_text(ident) == string@,
        ident_span(ident) == span,
;

/// `Ident::span` gives the place of the identifier.
pub assume_specification[ proc_macro2::Ident::span ](ident: &proc_macro2::Ident) -> (span: Span)
    ensures
        span == ident_span(*ident),
;

/// `Span::call_site`. Which place that is depends on the call of the macro and is not stated.
pub assume_specification[ Span::call_site ]() -> (span: Span)
;

/// `Ident::to_string` (its `Display`) gives the characters, with `r#` where the identifier is raw.
#[verifier::external_body]
pub(crate) fn ident_string(ident: &Ident) -> (text: String)
    ensures
        text@ == ident_text(*ident),
{
    ident.to_string()
}

/// `Ident::eq` compares the characters, `r#` among them.
#[verifier::external_body]
pub(crate) fn same_ident(left: &Ident, right: &Ident) -> (same: bool)
    ensures
        same == (ident_text(*left) == ident_text(*right)),
{
    left == right
}

/// `TokenStream::extend` with one identifier appends it. Alone in the stream, it is the first token
/// and the last.
#[verifier::external_body]
pub(crate) fn push_ident(stream: &mut TokenStream, ident: &Ident)
    ensures
        stream_tokens(*final(stream)) == stream_tokens(*old(stream)).push(
            Token::Ident(ident_text(*ident)),
        ),
        stream_tokens(*old(stream)).len() == 0 ==> stream_place(*final(stream)) == (Place {
            first: ident_span(*ident),
            last: ident_span(*ident),
        }),
{
    stream.extend(std::iter::once(proc_macro2::TokenTree::from(ident.clone())));
}

/// `Punct::new`, appended with `TokenStream::extend`. `Punct::new` panics on other characters.
#[verifier::external_body]
pub(crate) fn push_punct(stream: &mut TokenStream, c: char, spacing: Spacing)
    requires
        is_punctuation(c),
    ensures
        stream_tokens(*final(stream)) == stream_tokens(*old(stream)).push(Token::Punct(c, spacing)),
{
    let spacing = match spacing {
        Spacing::Alone => proc_macro2::Spacing::Alone,
        Spacing::Joint => proc_macro2::Spacing::Joint,
    };
    stream.extend(std::iter::once(proc_macro2::TokenTree::from(proc_macro2::Punct::new(c, spacing))));
}

/// `Group::new`, appended with `TokenStream::extend`.
#[verifier::external_body]
pub(crate) fn push_group(stream: &mut TokenStream, delimiter: Delimiter, inner: TokenStream)
    ensures
        stream_tokens(*final(stream)) == stream_tokens(*old(stream)).push(
            Token::Group(delimiter, stream_tokens(inner)),
        ),
{
    let delimiter = match delimiter {
        Delimiter::Parenthesis => proc_macro2::Delimiter::Parenthesis,
        Delimiter::Brace => proc_macro2::Delimiter::Brace,
        Delimiter::Bracket => proc_macro2::Delimiter::Bracket,
        Delimiter::Invisible => proc_macro2::Delimiter::None,
    };
    stream.extend(std::iter::once(proc_macro2::TokenTree::from(proc_macro2::Group::new(delimiter, inner))));
}

/// `TokenStream::extend` with one stream appends its tokens.
#[verifier::external_body]
pub(crate) fn append(stream: &mut TokenStream, more: &TokenStream)
    ensures
        stream_tokens(*final(stream)) == stream_tokens(*old(stream)) + stream_tokens(*more),
{
    stream.extend(std::iter::once(more.clone()));
}

/// `Literal::string` is a string literal for the given characters.
#[verifier::external_body]
pub(crate) fn string_literal(text: &str) -> (stream: TokenStream)
    ensures
        stream_tokens(stream) == seq![Token::Text(text@)],
{
    TokenStream::from(proc_macro2::TokenTree::from(proc_macro2::Literal::string(text)))
}

/// `Literal::usize_suffixed` is the number in base ten followed by `usize`.
#[verifier::external_body]
pub(crate) fn usize_literal(n: usize) -> (stream: TokenStream)
    ensures
        stream_tokens(stream) == seq![Token::Literal(decimal(n as nat) + "usize"@)],
{
    TokenStream::from(proc_macro2::TokenTree::from(proc_macro2::Literal::usize_suffixed(n)))
}

/// `TokenStream::to_string` (its `Display`). What it prints is only named.
#[verifier::external_body]
pub(crate) fn stream_string(stream: &TokenStream) -> (text: String)
    ensures
        text@ == printed(*stream),
{
    stream.to_string()
}

/// The stream that holds one identifier.
pub(crate) fn ident_stream(ident: &Ident) -> (stream: TokenStream)
    ensures
        stream_tokens(stream) == seq![Token::Ident(ident_text(*ident))],
        place_of(stream) == Some(ident_place(*ident)),
{
    let mut stream = TokenStream::new();
    push_ident(&mut stream, ident);
    stream
}

/// The digits of `n` in base ten.
pub fn decimal_string(n: usize) -> (text: String)
    ensures
        text@ == decimal(n as nat),
    decreases n,
{
    if n < 10 {
        let text = digit_str(n).to_owned();
        assert(text@ =~= decimal(n as nat));
        text
    } else {
        let mut text = decimal_string(n / 10);
        text.append(digit_str(n % 10));
        assert(text@ =~= decimal(n as nat));
        text
    }
}

/// The digit below ten as a string of one character.
fn digit_str(n: usize) -> (text: &'static str)
    requires
        n < 10,
    ensures
        text@ == seq![digit(n as nat)],
{
    proof {
        reveal_strlit("0");
        reveal_strlit("1");
        reveal_strlit("2");
        reveal_strlit("3");
        reveal_strlit("4");
        reveal_strlit("5");
        reveal_strlit("6");
        reveal_strlit("7");
        reveal_strlit("8");
        reveal_strlit("9");
    }
    let text = match n {
        0 => "0",
        1 => "1",
        2 => "2",
        3 => "3",
        4 => "4",
        5 => "5",
        6 => "6",
        7 => "7",
        8 => "8",
        _ => "9",
    };
    assert(text@ =~= seq![digit(n as nat)]);
    text
}

} // verus!
