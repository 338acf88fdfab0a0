//! The arguments of an attribute: `key`, `key = path` and `key = "text"`, separated by commas.

use proc_macro2::Span;
use vstd::prelude::*;

use crate::syntax::{attribute_path, error_messages, error_place, is_word_path};
use crate::syntax::{path_is, path_key, path_tokens};
use crate::token::{Place, Token};

verus! {

/// What follows a key.
#[derive(Clone, Copy, PartialEq, Eq, Structural)]
pub enum ValueKind {
    Absent,
    Path,
    Text,
}

/// A key that an attribute accepts, and what follows it.
pub struct KeyRule {
    pub key: &'static str,
    pub kind: ValueKind,
}

impl View for KeyRule {
    type V = (Seq<char>, ValueKind);

    open spec fn view(&self) -> (Seq<char>, ValueKind) {
        (self.key@, self.kind)
    }
}

/// The model of a list of rules.
pub open spec fn rules_view(rules: Seq<KeyRule>) -> Seq<(Seq<char>, ValueKind)> {
    rules.map_values(|rule: KeyRule| rule@)
}

/// What the first rule for a key says, or `None` where no rule names it.
pub open spec fn rule_for(rules: Seq<(Seq<char>, ValueKind)>, key: Seq<Token>) -> Option<ValueKind>
    decreases rules.len(),
{
    if rules.len() == 0 {
        None
    } else if is_word_path(key, rules[0].0) {
        Some(rules[0].1)
    } else {
        rule_for(rules.skip(1), key)
    }
}

/// What was read after a key.
pub enum Value {
    Absent,
    Path(syn::Path),
    Text(syn::LitStr),
}

/// The model of a `Value`.
pub enum ValueView {
    Absent,
    Path(Seq<Token>),
    /// The characters of the literal, and the place where it stands.
    Text(Seq<char>, Span),
}

impl View for Value {
    type V = ValueView;

    open spec fn view(&self) -> ValueView {
        match self {
            Value::Absent => ValueView::Absent,
            Value::Path(path) => ValueView::Path(path_tokens(*path)),
            Value::Text(literal) => ValueView::Text(literal_text(*literal), literal_span(*literal)),
        }
    }
}

/// Whether a value is of a kind.
pub open spec fn is_of_kind(value: ValueView, kind: ValueKind) -> bool {
    match kind {
        ValueKind::Absent => value is Absent,
        ValueKind::Path => value is Path,
        ValueKind::Text => value is Text,
    }
}

/// One argument of an attribute.
pub struct Entry {
    pub key: syn::Path,
    pub value: Value,
}

/// The model of an `Entry`.
pub struct EntryView {
    pub key: Seq<Token>,
    pub value: ValueView,
}

impl View for Entry {
    type V = EntryView;

    open spec fn view(&self) -> EntryView {
        EntryView { key: path_key(self.key), value: self.value@ }
    }
}

/// The model of a list of entries.
pub open spec fn entries_view(entries: Seq<Entry>) -> Seq<EntryView> {
    entries.map_values(|entry: Entry| entry@)
}

/// What was read of an attribute: its arguments up to the first that was not accepted, the key of
/// that one where no rule names it, and the error that ended the reading.
pub struct Arguments {
    pub entries: Vec<Entry>,
    pub unsupported: Option<syn::Path>,
    pub failure: Option<syn::Error>,
}

/// The model of `Arguments`.
pub struct ArgumentsView {
    pub entries: Seq<EntryView>,
    pub unsupported: Option<Seq<Token>>,
    pub failure: Option<Seq<Seq<char>>>,
    pub failure_place: Option<Place>,
}

impl View for Arguments {
    type V = ArgumentsView;

    open spec fn view(&self) -> ArgumentsView {
        ArgumentsView {
            entries: entries_view(self.entries@),
            unsupported: match self.unsupported {
                Some(key) => Some(path_key(key)),
                None => None,
            },
            failure: match self.failure {
                Some(error) => Some(error_messages(error)),
                None => None,
            },
            failure_place: match self.failure {
                Some(error) => Some(error_place(error)),
                None => None,
            },
        }
    }
}

/// Whether every argument follows the rules, and the key that no rule names, where there is one,
/// is what ended the reading, with the given message.
pub open spec fn follows_rules(
    arguments: ArgumentsView,
    rules: Seq<(Seq<char>, ValueKind)>,
    message: Seq<char>,
) -> bool {
    &&& forall|i: int|
        0 <= i < arguments.entries.len() ==> {
            &&& rule_for(rules, (#[trigger] arguments.entries[i]).key) is Some
            &&& is_of_kind(
                arguments.entries[i].value,
                rule_for(rules, arguments.entries[i].key)->0,
            )
        }
    &&& arguments.unsupported matches Some(key) ==> {
        &&& rule_for(rules, key) is None
        &&& arguments.failure == Some(seq![message])
    }
}

/// Whether one of the arguments has the one word given as its key.
pub open spec fn has_key(entries: Seq<EntryView>, word: Seq<char>) -> bool {
    exists|i: int| 0 <= i < entries.len() && is_word_path((#[trigger] entries[i]).key, word)
}

/// `syn::LitStr`, opaque here.
#[verifier::external_type_specification]
#[verifier::external_body]
pub struct ExLitStr(syn::LitStr);

/// `syn::meta::ParseNestedMeta`, opaque here.
#[verifier::external_type_specification]
#[verifier::external_body]
pub struct ExParseNestedMeta<'a>(syn::meta::ParseNestedMeta<'a>);

/// The characters that a string literal holds, with its escapes resolved.
pub uninterp spec fn literal_text(literal: syn::LitStr) -> Seq<char>;

/// The place in the source where a string literal stands.
pub uninterp spec fn literal_span(literal: syn::LitStr) -> Span;

/// The tokens of the key that stands at the head of an argument.
pub uninterp spec fn meta_key(meta: syn::meta::ParseNestedMeta) -> Seq<Token>;

/// The path that follows the key of an argument and `=`, or the messages of the error in its place.
pub uninterp spec fn meta_path_value(meta: syn::meta::ParseNestedMeta) -> Result<
    Seq<Token>,
    Seq<Seq<char>>,
>;

/// The characters and the place of the string literal that follows the key of an argument and `=`,
/// or the messages of the error in its place.
pub uninterp spec fn meta_text_value(meta: syn::meta::ParseNestedMeta) -> Result<
    (Seq<char>, Span),
    Seq<Seq<char>>,
>;

/// What follows the key of an argument, read as the given kind of value.
pub open spec fn meta_value(meta: syn::meta::ParseNestedMeta, kind: ValueKind) -> Result<
    ValueView,
    Seq<Seq<char>>,
> {
    match kind {
        ValueKind::Absent => Ok(ValueView::Absent),
        ValueKind::Path => match meta_path_value(meta) {
            Ok(path) => Ok(ValueView::Path(path)),
            Err(messages) => Err(messages),
        },
        ValueKind::Text => match meta_text_value(meta) {
            Ok((text, span)) => Ok(ValueView::Text(text, span)),
            Err(messages) => Err(messages),
        },
    }
}

/// What is read of the arguments of an attribute under the given rules and with the given message
/// for a key that none of them names.
pub uninterp spec fn nested_arguments(
    attribute: syn::Attribute,
    rules: Seq<(Seq<char>, ValueKind)>,
    message: Seq<char>,
) -> ArgumentsView;

/// `LitStr::value` gives the characters of the literal, with its escapes resolved.
pub assume_specification[ syn::LitStr::value ](literal: &syn::LitStr) -> (text: String)
    ensures
        text@ == literal_text(*literal),
;

/// `LitStr::span` gives the place of the literal.
pub assume_specification[ syn::LitStr::span ](literal: &syn::LitStr) -> (span: Span)
    ensures
        span == literal_span(*literal),
;

/// The field `path` of a `ParseNestedMeta`.
#[verifier::external_body]
fn key_of(meta: &syn::meta::ParseNestedMeta<'_>) -> (key: syn::Path)
    ensures
        path_key(key) == meta_key(*meta),
{
    meta.path.clone()
}

/// `ParseNestedMeta::value` and `ParseBuffer::parse` read `=` and a path. They move the cursor
/// of the input on, so the argument is used up. What they find there is only named.
#[verifier::external_body]
fn path_value(meta: syn::meta::ParseNestedMeta<'_>) -> (value: Result<syn::Path, syn::Error>)
    ensures
        match value {
            Ok(path) => meta_path_value(meta) == Ok::<Seq<Token>, Seq<Seq<char>>>(path_tokens(path)),
            Err(error) => meta_path_value(meta) == Err::<Seq<Token>, Seq<Seq<char>>>(
                error_messages(error),
            ),
        },
{
    meta.value()?.parse::<syn::Path>()
}

/// `ParseNestedMeta::value` and `ParseBuffer::parse` read `=` and a string literal. They move the
/// cursor of the input on, so the argument is used up. What they find there is only named.
#[verifier::external_body]
fn text_value(meta: syn::meta::ParseNestedMeta<'_>) -> (value: Result<syn::LitStr, syn::Error>)
    ensures
        match value {
            Ok(text) => meta_text_value(meta) == Ok::<(Seq<char>, Span), Seq<Seq<char>>>(
                (literal_text(text), literal_span(text)),
            ),
            Err(error) => meta_text_value(meta) == Err::<(Seq<char>, Span), Seq<Seq<char>>>(
                error_messages(error),
            ),
        },
{
    meta.value()?.parse::<syn::LitStr>()
}

/// `ParseNestedMeta::error` holds the one message. Where the error points is not stated.
#[verifier::external_body]
fn key_error(meta: &syn::meta::ParseNestedMeta<'_>, message: &str) -> (error: syn::Error)
    ensures
        error_messages(error) == seq![message@],
{
    meta.error(message)
}

/// What is there once an argument was read: the arguments accepted so far, the key that no rule names,
/// and the messages that the argument was refused with.
pub struct ReadView {
    pub entries: Seq<EntryView>,
    pub unsupported: Option<Seq<Token>>,
    pub refusal: Option<Seq<Seq<char>>>,
}

/// What comes of reading an argument after others under the given rules.
pub open spec fn read_one(
    rules: Seq<(Seq<char>, ValueKind)>,
    message: Seq<char>,
    entries: Seq<EntryView>,
    unsupported: Option<Seq<Token>>,
    meta: syn::meta::ParseNestedMeta,
) -> ReadView {
    match rule_for(rules, meta_key(meta)) {
        Some(kind) => match meta_value(meta, kind) {
            Ok(value) => ReadView {
                entries: entries.push(EntryView { key: meta_key(meta), value }),
                unsupported,
                refusal: None,
            },
            Err(messages) => ReadView { entries, unsupported, refusal: Some(messages) },
        },
        None => ReadView {
            entries,
            unsupported: Some(meta_key(meta)),
            refusal: Some(seq![message]),
        },
    }
}

/// The key of a path that may be missing.
pub open spec fn option_key(path: Option<syn::Path>) -> Option<Seq<Token>> {
    match path {
        Some(path) => Some(path_key(path)),
        None => None,
    }
}

/// Reads arguments one by one.
pub struct Reader<'r> {
    rules: &'r Vec<KeyRule>,
    message: &'r str,
    entries: Vec<Entry>,
    unsupported: Option<syn::Path>,
}

impl<'r> Reader<'r> {
    /// What the rules say of a key.
    fn rule(&self, key: &syn::Path) -> (kind: Option<ValueKind>)
        ensures
            kind == rule_for(rules_view(self.rules@), path_key(*key)),
    {
        let rules = self.rules;
        let ghost view = rules_view(rules@);
        let mut i: usize = 0;
        assert(view.skip(0) =~= view);
        while i < rules.len()
            invariant
                i <= rules.len(),
                rules == self.rules,
                view == rules_view(rules@),
                rule_for(view, path_key(*key)) == rule_for(
                    view.skip(i as int),
                    path_key(*key),
                ),
            decreases rules.len() - i,
        {
            assert(view.skip(i as int)[0] == rules@[i as int]@);
            if path_is(key, rules[i].key) {
                return Some(rules[i].kind);
            }
            assert(view.skip(i as int).skip(1) =~= view.skip(i + 1));
            i = i + 1;
        }
        None
    }

    /// Reads one argument. It is refused where no rule names its key, and where what follows the
    /// key cannot be read as the rule says.
    fn read(&mut self, meta: syn::meta::ParseNestedMeta<'_>) -> (outcome: Result<(), syn::Error>)
        ensures
            final(self).rules == old(self).rules,
            final(self).message == old(self).message,
            read_one(
                rules_view(old(self).rules@),
                old(self).message@,
                entries_view(old(self).entries@),
                option_key(old(self).unsupported),
                meta,
            ) == (ReadView {
                entries: entries_view(final(self).entries@),
                unsupported: option_key(final(self).unsupported),
                refusal: match outcome {
                    Ok(_) => None,
                    Err(error) => Some(error_messages(error)),
                },
            }),
            match rule_for(rules_view(old(self).rules@), meta_key(meta)) {
                Some(kind) => {
                    &&& final(self).unsupported == old(self).unsupported
                    &&& match meta_value(meta, kind) {
                        Ok(value) => {
                            &&& outcome is Ok
                            &&& entries_view(final(self).entries@) == entries_view(
                                old(self).entries@,
                            ).push(EntryView { key: meta_key(meta), value })
                        },
                        Err(messages) => {
                            &&& outcome matches Err(error) && error_messages(error) == messages
                            &&& final(self).entries == old(self).entries
                        },
                    }
                },
                None => {
                    &&& final(self).entries == old(self).entries
                    &&& final(self).unsupported matches Some(key) && path_key(key) == meta_key(meta)
                    &&& outcome matches Err(error) && error_messages(error) == seq![
                        old(self).message@,
                    ]
                },
            },
    {
        let key = key_of(&meta);
        let value = match self.rule(&key) {
            Some(ValueKind::Absent) => Value::Absent,
            Some(ValueKind::Path) => match path_value(meta) {
                Ok(path) => Value::Path(path),
                Err(error) => return Err(error),
            },
            Some(ValueKind::Text) => match text_value(meta) {
                Ok(text) => Value::Text(text),
                Err(error) => return Err(error),
            },
            None => {
                self.unsupported = Some(key);
                return Err(key_error(&meta, self.message));
            },
        };
        self.entries.push(Entry { key, value });
        assert(entries_view(self.entries@) =~= entries_view(old(self).entries@).push(
            EntryView { key: meta_key(meta), value: value@ },
        ));
        Ok(())
    }
}

/// `Attribute::parse_nested_meta` hands each argument to the reader in turn, and stops at the first
/// error of the reader or in the syntax. What it hands over depends on the attribute and
/// on what the reader takes of them; that grammar is only named. Beside the name stands what the
/// reader ensures of whatever it was handed. It panics where the attribute's path is empty.
#[verifier::external_body]
pub(crate) fn read_arguments(
    attribute: &syn::Attribute,
    rules: &Vec<KeyRule>,
    message: &str,
) -> (arguments: Arguments)
    requires
        exists|word: Seq<char>|
            is_word_path(attribute_path(*attribute), word),
    ensures
        arguments@ == nested_arguments(*attribute, rules_view(rules@), message@),
        follows_rules(arguments@, rules_view(rules@), message@),
{
    let mut reader = Reader { rules, message, entries: Vec::new(), unsupported: None };
    let outcome = attribute.parse_nested_meta(|meta| reader.read(meta));
    Arguments { entries: reader.entries, unsupported: reader.unsupported, failure: outcome.err() }
}

} // verus!
