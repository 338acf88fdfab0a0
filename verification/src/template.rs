//! Token templates: Rust text with holes.
//!
//! A template is made of words, punctuation and brackets. `#name` stands for the tokens of the
//! hole `name`; a `#` that no hole follows is an ordinary `#`. Everything else (spaces, line
//! breaks) only separates tokens.

use proc_macro2::{Ident, Span, TokenStream};
use vstd::prelude::*;

use crate::ident::{ascii_letter, plain_identifier};
use crate::token::{append, is_punctuation, push_group, push_ident, push_punct};
use crate::token::{stream_tokens, Delimiter, Spacing, Token};

verus! {

/// A character that a word of a template starts with.
pub open spec fn starts_word(c: char) -> bool {
    ascii_letter(c) || c == '_'
}

/// A character that a word of a template goes on with.
pub open spec fn in_word(c: char) -> bool {
    starts_word(c) || '0' <= c <= '9'
}

/// Where the run of word characters that goes on at `from` ends.
pub open spec fn word_end(text: Seq<char>, from: int) -> int
    decreases text.len() - from,
{
    if 0 <= from < text.len() && in_word(text[from]) {
        word_end(text, from + 1)
    } else {
        from
    }
}

/// The delimiter that a bracket opens.
pub open spec fn opened(c: char) -> Option<Delimiter> {
    if c == '(' {
        Some(Delimiter::Parenthesis)
    } else if c == '{' {
        Some(Delimiter::Brace)
    } else if c == '[' {
        Some(Delimiter::Bracket)
    } else {
        None
    }
}

/// A closing bracket.
pub open spec fn closes(c: char) -> bool {
    c == ')' || c == '}' || c == ']'
}

/// The operators of two characters that a template can hold: `::`, `->`, `=>`, `==` and `..`.
pub open spec fn glued(first: char, second: char) -> bool {
    ||| first == ':' && second == ':'
    ||| first == '-' && second == '>'
    ||| first == '=' && second == '>'
    ||| first == '=' && second == '='
    ||| first == '.' && second == '.'
}

/// The tokens of the first hole with the given name.
pub open spec fn filling(holes: Seq<(Seq<char>, Seq<Token>)>, name: Seq<char>) -> Option<Seq<Token>>
    decreases holes.len(),
{
    if holes.len() == 0 {
        None
    } else if holes[0].0 == name {
        Some(holes[0].1)
    } else {
        filling(holes.skip(1), name)
    }
}

/// The tokens of the template `text` from position `at` on. `open` holds the groups that are
/// open there, outermost first, each with the tokens that stand before it; `done` holds the tokens
/// read so far in the innermost one.
pub open spec fn woven(
    text: Seq<char>,
    at: int,
    holes: Seq<(Seq<char>, Seq<Token>)>,
    open: Seq<(Delimiter, Seq<Token>)>,
    done: Seq<Token>,
) -> Seq<Token>
    decreases text.len() - at,
{
    proof {
        lemma_word_end(text, at + 1);
        lemma_word_end(text, at + 2);
    }
    if !(0 <= at < text.len()) {
        done
    } else if starts_word(text[at]) {
        let end = word_end(text, at + 1);
        woven(text, end, holes, open, done.push(Token::Ident(text.subrange(at, end))))
    } else if text[at] == '#' && at + 1 < text.len() && starts_word(text[at + 1]) {
        let end = word_end(text, at + 2);
        match filling(holes, text.subrange(at + 1, end)) {
            Some(tokens) => woven(text, end, holes, open, done + tokens),
            None => woven(text, at + 1, holes, open, done.push(Token::Punct('#', Spacing::Alone))),
        }
    } else if opened(text[at]) is Some {
        woven(text, at + 1, holes, open.push((opened(text[at])->0, done)), Seq::empty())
    } else if closes(text[at]) && open.len() > 0 {
        woven(
            text,
            at + 1,
            holes,
            open.drop_last(),
            open.last().1.push(Token::Group(open.last().0, done)),
        )
    } else if at + 1 < text.len() && glued(text[at], text[at + 1]) {
        woven(
            text,
            at + 2,
            holes,
            open,
            done.push(Token::Punct(text[at], Spacing::Joint)).push(
                Token::Punct(text[at + 1], Spacing::Alone),
            ),
        )
    } else if is_punctuation(text[at]) {
        let spacing = if text[at] == '\'' {
            Spacing::Joint
        } else {
            Spacing::Alone
        };
        woven(text, at + 1, holes, open, done.push(Token::Punct(text[at], spacing)))
    } else {
        woven(text, at + 1, holes, open, done)
    }
}

/// The tokens of a template with its holes filled.
pub open spec fn quoted(template: Seq<char>, holes: Seq<(Seq<char>, Seq<Token>)>) -> Seq<Token> {
    woven(template, 0, holes, Seq::empty(), Seq::empty())
}

/// A run of word characters ends at or after its start, within the text.
pub proof fn lemma_word_end(text: Seq<char>, from: int)
    ensures
        from <= word_end(text, from),
        0 <= from <= text.len() ==> word_end(text, from) <= text.len(),
        forall|i: int| from <= i < word_end(text, from) ==> in_word(#[trigger] text[i]),
    decreases text.len() - from,
{
    if 0 <= from < text.len() && in_word(text[from]) {
        lemma_word_end(text, from + 1);
    }
}

/// What the holes of a template stand for, by name.
pub struct Holes {
    entries: Vec<(String, TokenStream)>,
}

/// One hole as its name and its tokens.
spec fn hole_view(entry: (String, TokenStream)) -> (Seq<char>, Seq<Token>) {
    (entry.0@, stream_tokens(entry.1))
}

impl View for Holes {
    type V = Seq<(Seq<char>, Seq<Token>)>;

    closed spec fn view(&self) -> Seq<(Seq<char>, Seq<Token>)> {
        self.entries@.map_values(|entry: (String, TokenStream)| hole_view(entry))
    }
}

impl Holes {
    /// No holes.
    pub fn new() -> (holes: Holes)
        ensures
            holes@ == Seq::<(Seq<char>, Seq<Token>)>::empty(),
    {
        let holes = Holes { entries: Vec::new() };
        assert(holes@ =~= Seq::<(Seq<char>, Seq<Token>)>::empty());
        holes
    }

    /// The holes with one more.
    pub fn with(self, name: &str, tokens: &TokenStream) -> (holes: Holes)
        ensures
            holes@ == self@.push((name@, stream_tokens(*tokens))),
    {
        let mut entries = self.entries;
        entries.push((name.to_owned(), tokens.clone()));
        let holes = Holes { entries };
        assert(holes@ =~= self@.push((name@, stream_tokens(*tokens))));
        holes
    }

    /// The place of the first hole with the given name.
    fn find(&self, name: &String) -> (found: Option<usize>)
        ensures
            match found {
                Some(i) => i < self.entries.len() && filling(self@, name@) == Some(
                    stream_tokens(self.entries[i as int].1),
                ),
                None => filling(self@, name@) is None,
            },
    {
        let mut i: usize = 0;
        assert(self@.skip(0) =~= self@);
        while i < self.entries.len()
            invariant
                0 <= i <= self.entries.len(),
                filling(self@, name@) == filling(self@.skip(i as int), name@),
            decreases self.entries.len() - i,
        {
            assert(self@.skip(i as int)[0] == hole_view(self.entries[i as int]));
            if self.entries[i].0 == *name {
                return Some(i);
            }
            assert(self@.skip(i as int).skip(1) =~= self@.skip(i + 1));
            i = i + 1;
        }
        None
    }
}

fn is_word_start(c: char) -> (r: bool)
    ensures
        r == starts_word(c),
{
    ('a' <= c && c <= 'z') || ('A' <= c && c <= 'Z') || c == '_'
}

fn is_word_char(c: char) -> (r: bool)
    ensures
        r == in_word(c),
{
    is_word_start(c) || ('0' <= c && c <= '9')
}

fn opened_by(c: char) -> (delimiter: Option<Delimiter>)
    ensures
        delimiter == opened(c),
{
    match c {
        '(' => Some(Delimiter::Parenthesis),
        '{' => Some(Delimiter::Brace),
        '[' => Some(Delimiter::Bracket),
        _ => None,
    }
}

fn is_glued(first: char, second: char) -> (r: bool)
    ensures
        r == glued(first, second),
{
    (first == ':' && second == ':') || (first == '-' && second == '>') || (first == '=' && second
        == '>') || (first == '=' && second == '=') || (first == '.' && second == '.')
}

fn is_punct(c: char) -> (r: bool)
    ensures
        r == is_punctuation(c),
{
    c == '!' || c == '#' || c == '$' || c == '%' || c == '&' || c == '\'' || c == '*' || c == '+'
        || c == ',' || c == '-' || c == '.' || c == '/' || c == ':' || c == ';' || c == '<' || c
        == '=' || c == '>' || c == '?' || c == '@' || c == '^' || c == '|' || c == '~'
}

/// Where the run of word characters that goes on at `from` ends.
fn end_of_word(text: &Vec<char>, from: usize) -> (end: usize)
    requires
        from <= text.len(),
    ensures
        end == word_end(text@, from as int),
        from <= end <= text.len(),
{
    let mut end: usize = from;
    while end < text.len() && is_word_char(text[end])
        invariant
            from <= end <= text.len(),
            word_end(text@, from as int) == word_end(text@, end as int),
        decreases text.len() - end,
    {
        end = end + 1;
    }
    end
}

/// The characters of a text.
fn characters(text: &str) -> (chars: Vec<char>)
    ensures
        chars@ == text@,
{
    let mut chars: Vec<char> = Vec::new();
    for c in iter: text.chars()
        invariant
            iter.seq() == text@,
            chars@ == iter.seq().take(iter.index() as int),
    {
        chars.push(c);
    }
    chars
}

/// The open groups as a model.
spec fn frames(open: Seq<(Delimiter, TokenStream)>) -> Seq<(Delimiter, Seq<Token>)> {
    open.map_values(|frame: (Delimiter, TokenStream)| (frame.0, stream_tokens(frame.1)))
}

/// The tokens of a template with its holes filled.
pub fn quote(template: &str, holes: &Holes) -> (stream: TokenStream)
    ensures
        stream_tokens(stream) == quoted(template@, holes@),
{
    let text = characters(template);
    let mut open: Vec<(Delimiter, TokenStream)> = Vec::new();
    let mut done = TokenStream::new();
    let mut at: usize = 0;
    assert(frames(open@) =~= Seq::<(Delimiter, Seq<Token>)>::empty());
    while at < text.len()
        invariant
            text@ == template@,
            at <= text.len(),
            quoted(template@, holes@) == woven(
                text@,
                at as int,
                holes@,
                frames(open@),
                stream_tokens(done),
            ),
        decreases text.len() - at,
    {
        let c = text[at];
        proof {
            lemma_word_end(text@, at + 1);
            lemma_word_end(text@, at + 2);
        }
        if is_word_start(c) {
            let end = end_of_word(&text, at + 1);
            let word = template.substring_char(at, end);
            assert(word@ == text@.subrange(at as int, end as int));
            assert(plain_identifier(word@));
            push_ident(&mut done, &Ident::new(word, Span::call_site()));
            at = end;
        } else if c == '#' && at + 1 < text.len() && is_word_start(text[at + 1]) {
            let end = end_of_word(&text, at + 2);
            let name = template.substring_char(at + 1, end).to_owned();
            match holes.find(&name) {
                Some(i) => {
                    append(&mut done, &holes.entries[i].1);
                    at = end;
                },
                None => {
                    push_punct(&mut done, '#', Spacing::Alone);
                    at = at + 1;
                },
            }
        } else if let Some(delimiter) = opened_by(c) {
            let ghost before = open@;
            open.push((delimiter, done));
            proof {
                assert(frames(open@) =~= frames(before).push((delimiter, stream_tokens(done))));
            }
            done = TokenStream::new();
            at = at + 1;
        } else if (c == ')' || c == '}' || c == ']') && open.len() > 0 {
            let ghost before = open@;
            if let Some((delimiter, mut outer)) = open.pop() {
                assert(frames(open@) =~= frames(before).drop_last());
                assert(frames(before).last() == (delimiter, stream_tokens(outer)));
                push_group(&mut outer, delimiter, done);
                done = outer;
            }
            at = at + 1;
        } else if at + 1 < text.len() && is_glued(c, text[at + 1]) {
            push_punct(&mut done, c, Spacing::Joint);
            push_punct(&mut done, text[at + 1], Spacing::Alone);
            at = at + 2;
        } else if is_punct(c) {
            let spacing = if c == '\'' {
                Spacing::Joint
            } else {
                Spacing::Alone
            };
            push_punct(&mut done, c, spacing);
            at = at + 1;
        } else {
            at = at + 1;
        }
    }
    done
}

} // verus!
