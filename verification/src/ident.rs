//! What counts as an identifier, and the identifiers that are made up from others.

use proc_macro2::{Ident, Span};
use vstd::prelude::*;

use crate::token::{ident_span, ident_text};

verus! {

/// An ASCII letter.
pub open spec fn ascii_letter(c: char) -> bool {
    'a' <= c <= 'z' || 'A' <= c <= 'Z'
}

/// A character that an identifier can start with. Beyond ASCII it is the lexer's to say.
pub open spec fn starts_identifier(c: char) -> bool {
    c as u32 > 0x7f || ascii_letter(c) || c == '_'
}

/// A character that an identifier can go on with. Beyond ASCII it is the lexer's to say.
pub open spec fn continues_identifier(c: char) -> bool {
    starts_identifier(c) || '0' <= c <= '9'
}

/// A text that can be that of an identifier that is not raw: what ASCII characters it holds are in
/// order. Keywords and `_` are such texts too.
pub open spec fn identifier_shaped(text: Seq<char>) -> bool {
    &&& text.len() > 0
    &&& starts_identifier(text[0])
    &&& forall|i: int| 1 <= i < text.len() ==> continues_identifier(#[trigger] text[i])
}

/// A text of ASCII characters.
pub open spec fn ascii_text(text: Seq<char>) -> bool {
    forall|i: int| 0 <= i < text.len() ==> #[trigger] text[i] as u32 <= 0x7f
}

/// The text of an identifier that is made of ASCII characters.
pub open spec fn plain_identifier(text: Seq<char>) -> bool {
    ascii_text(text) && identifier_shaped(text)
}

/// The composed form (Unicode NFC) of a text.
pub uninterp spec fn composed(text: Seq<char>) -> Seq<char>;

/// Whether an identifier made from `text` can have the characters `made`: those of the text, or
/// beyond ASCII those of its composed form. A compiler composes, other lexers do not.
pub open spec fn spelled(made: Seq<char>, text: Seq<char>) -> bool {
    made == text || (!ascii_text(text) && made == composed(text))
}

/// What can come of making an identifier from a text: an identifier spelled as the text, or
/// nothing. Beyond ASCII the lexer at hand decides between the two.
pub open spec fn made_from(made: Option<Seq<char>>, text: Seq<char>) -> bool {
    match made {
        Some(made) => identifier_shaped(text) && spelled(made, text),
        None => !plain_identifier(text),
    }
}

/// The text of an identifier that may be missing.
pub open spec fn option_text(ident: Option<Ident>) -> Option<Seq<char>> {
    match ident {
        Some(ident) => Some(ident_text(ident)),
        None => None,
    }
}

/// The text of an identifier without a leading `r#`.
pub open spec fn unraw(text: Seq<char>) -> Seq<char> {
    if text.len() >= 2 && text[0] == 'r' && text[1] == '#' {
        text.skip(2)
    } else {
        text
    }
}

fn is_start(c: char) -> (r: bool)
    ensures
        r == starts_identifier(c),
{
    c as u32 > 0x7f || ('a' <= c && c <= 'z') || ('A' <= c && c <= 'Z') || c == '_'
}

fn is_continue(c: char) -> (r: bool)
    ensures
        r == continues_identifier(c),
{
    is_start(c) || ('0' <= c && c <= '9')
}

/// Whether a text can be that of an identifier.
pub fn is_identifier_shaped(text: &str) -> (r: bool)
    ensures
        r == identifier_shaped(text@),
{
    let len: usize = text.unicode_len();
    if len == 0 || !is_start(text.get_char(0)) {
        return false;
    }
    let mut i: usize = 1;
    while i < len
        invariant
            1 <= i <= len,
            len == text@.len(),
            forall|j: int| 1 <= j < i ==> continues_identifier(#[trigger] text@[j]),
        decreases len - i,
    {
        if !is_continue(text.get_char(i)) {
            return false;
        }
        i = i + 1;
    }
    true
}

/// Whether a text is made of ASCII characters.
pub fn is_ascii_text(text: &str) -> (r: bool)
    ensures
        r == ascii_text(text@),
{
    let len: usize = text.unicode_len();
    let mut i: usize = 0;
    while i < len
        invariant
            i <= len,
            len == text@.len(),
            forall|j: int| 0 <= j < i ==> #[trigger] text@[j] as u32 <= 0x7f,
        decreases len - i,
    {
        if text.get_char(i) as u32 > 0x7f {
            return false;
        }
        i = i + 1;
    }
    true
}

/// `Ident::new` beyond ASCII, once `IdentExt::parse_any` has read the text through
/// `Parser::parse_str`. The lexer at hand decides whether it takes the text, by Unicode tables of
/// its own, and says so without a panic where it does not; `Ident::new` alone would panic there. A
/// compiler's lexer composes the text. Which of these happens is not stated. The place is the one
/// given.
///
/// What is read is `probe`, the text between `r#` and `_`: it is one token only where the whole of
/// the text is part of one identifier, so that nothing in it was skipped as a blank.
#[verifier::external_body]
fn ident_beyond_ascii(text: &str, probe: &str, span: Span) -> (ident: Option<Ident>)
    requires
        identifier_shaped(text@),
        probe@ == "r#"@ + text@ + "_"@,
    ensures
        ident matches Some(made) ==> ident_text(made) == text@ || (!ascii_text(text@)
            && ident_text(made) == composed(text@)),
        ident matches Some(made) ==> ident_span(made) == span,
{
    match syn::parse::Parser::parse_str(<Ident as syn::ext::IdentExt>::parse_any, probe) {
        Ok(_) => Some(Ident::new(text, span)),
        Err(_) => None,
    }
}

/// The identifier made from a text, or `None` where none can be made of it.
pub fn ident_from(text: &str, span: Span) -> (ident: Option<Ident>)
    ensures
        made_from(option_text(ident), text@),
        ident matches Some(made) ==> ident_span(made) == span,
{
    if !is_identifier_shaped(text) {
        None
    } else if is_ascii_text(text) {
        Some(Ident::new(text, span))
    } else {
        let mut probe = "r#".to_owned();
        probe.append(text);
        probe.append("_");
        ident_beyond_ascii(text, probe.as_str(), span)
    }
}

/// A text without a leading `r#`.
pub fn without_raw_prefix(text: &str) -> (rest: &str)
    ensures
        rest@ == unraw(text@),
{
    let len: usize = text.unicode_len();
    if len >= 2 && text.get_char(0) == 'r' && text.get_char(1) == '#' {
        let rest = text.substring_char(2, len);
        assert(rest@ =~= text@.skip(2));
        rest
    } else {
        text
    }
}

/// The lower case of an ASCII character.
pub open spec fn ascii_lower(c: char) -> char {
    if 'A' <= c <= 'Z' {
        (c as u32 + 32) as char
    } else {
        c
    }
}

/// The lower case of a text that is not made of ASCII characters alone.
pub uninterp spec fn lowercased(text: Seq<char>) -> Seq<char>;

/// The lower case of a text.
pub open spec fn lower_case(text: Seq<char>) -> Seq<char> {
    if ascii_text(text) {
        Seq::new(text.len(), |i: int| ascii_lower(text[i]))
    } else {
        lowercased(text)
    }
}

/// `str::to_lowercase` turns the letters of ASCII text to lower case one by one. Beyond ASCII it
/// goes by Unicode tables and by the text alone, so its result is only named there.
#[verifier::external_body]
pub(crate) fn lowercase(text: &str) -> (lower: String)
    ensures
        lower@ == (if ascii_text(text@) {
            Seq::new(text@.len(), |i: int| ascii_lower(text@[i]))
        } else {
            lowercased(text@)
        }),
{
    text.to_lowercase()
}

} // verus!
