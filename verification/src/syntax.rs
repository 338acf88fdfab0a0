//! The item that a derive stands on, and the errors that it is refused with.

use proc_macro2::{Ident, TokenStream};
use vstd::prelude::*;

use crate::ident::option_text;
use crate::token::{ident_place, ident_text, joined, place_of, printed, stream_place};
use crate::token::{stream_tokens, Delimiter, Place, Spacing, Token};

verus! {

/// Whether the fields of a struct or a variant have names, have places, or are not there at all.
#[derive(Clone, Copy, PartialEq, Eq, Structural)]
pub enum FieldsStyle {
    Named,
    Unnamed,
    Unit,
}

/// One field of a struct or a variant.
pub struct Field {
    pub ident: Option<Ident>,
    pub ty: TokenStream,
}

/// The model of a type: its tokens, and the text that they print as where it stands.
pub struct TypeView {
    pub tokens: Seq<Token>,
    pub text: Seq<char>,
}

/// The type that a stream holds.
pub open spec fn type_view(stream: TokenStream) -> TypeView {
    TypeView { tokens: stream_tokens(stream), text: printed(stream) }
}

/// The model of a `Field`.
pub struct FieldView {
    pub ident: Option<Seq<char>>,
    pub ty: TypeView,
}

impl View for Field {
    type V = FieldView;

    open spec fn view(&self) -> FieldView {
        FieldView { ident: option_text(self.ident), ty: type_view(self.ty) }
    }
}

/// The model of the fields of a struct or a variant.
pub struct FieldsView {
    pub style: FieldsStyle,
    pub fields: Seq<FieldView>,
}

/// One variant of an enum. `tokens` is the whole of it.
pub struct Variant {
    pub attributes: Vec<syn::Attribute>,
    pub ident: Ident,
    pub fields: syn::Fields,
    pub tokens: TokenStream,
}

/// The model of a `Variant`. `place` is where the whole of it stands.
pub struct VariantView {
    pub attributes: Seq<syn::Attribute>,
    pub ident: Seq<char>,
    pub fields: FieldsView,
    pub tokens: Seq<Token>,
    pub place: Option<Place>,
}

impl View for Variant {
    type V = VariantView;

    open spec fn view(&self) -> VariantView {
        VariantView {
            attributes: self.attributes@,
            ident: ident_text(self.ident),
            fields: fields_view(self.fields),
            tokens: stream_tokens(self.tokens),
            place: place_of(self.tokens),
        }
    }
}

/// A list of variants as a model.
pub open spec fn variants_view(variants: Seq<Variant>) -> Seq<VariantView> {
    variants.map_values(|variant: Variant| variant@)
}

/// What kind of item it is, and what is in it.
pub enum Body {
    Struct(syn::Fields),
    Enum(Vec<Variant>),
    Union,
}

/// The model of a `Body`.
pub enum BodyView {
    Struct(FieldsView),
    Enum(Seq<VariantView>),
    Union,
}

impl View for Body {
    type V = BodyView;

    open spec fn view(&self) -> BodyView {
        match self {
            Body::Struct(fields) => BodyView::Struct(fields_view(*fields)),
            Body::Enum(variants) => BodyView::Enum(variants_view(variants@)),
            Body::Union => BodyView::Union,
        }
    }
}

/// The item that a derive stands on. `tokens` is the whole of it.
pub struct Input {
    pub attributes: Vec<syn::Attribute>,
    pub visibility: TokenStream,
    pub ident: Ident,
    pub body: Body,
    pub tokens: TokenStream,
}

/// The model of an `Input`. `place` is where the whole of it stands, `ident_place` where its name
/// does.
pub struct InputView {
    pub attributes: Seq<syn::Attribute>,
    pub visibility: Seq<Token>,
    pub ident: Seq<char>,
    pub ident_place: Place,
    pub body: BodyView,
    pub tokens: Seq<Token>,
    pub place: Option<Place>,
}

impl View for Input {
    type V = InputView;

    open spec fn view(&self) -> InputView {
        InputView {
            attributes: self.attributes@,
            visibility: stream_tokens(self.visibility),
            ident: ident_text(self.ident),
            ident_place: ident_place(self.ident),
            body: self.body@,
            tokens: stream_tokens(self.tokens),
            place: place_of(self.tokens),
        }
    }
}

/// Fields as their style and their list.
pub open spec fn fields_view(fields: syn::Fields) -> FieldsView {
    FieldsView { style: fields_style(fields), fields: fields_list(fields) }
}

/// The tokens of `::core::compile_error! { "message" }`.
pub open spec fn compile_error_tokens(message: Seq<char>) -> Seq<Token> {
    seq![
        Token::Punct(':', Spacing::Joint),
        Token::Punct(':', Spacing::Alone),
        Token::Ident("core"@),
        Token::Punct(':', Spacing::Joint),
        Token::Punct(':', Spacing::Alone),
        Token::Ident("compile_error"@),
        Token::Punct('!', Spacing::Alone),
        Token::Group(Delimiter::Brace, seq![Token::Text(message)]),
    ]
}

/// The tokens that report the given messages, in order.
pub open spec fn compile_errors(messages: Seq<Seq<char>>) -> Seq<Token> {
    joined(messages.len(), |i: int| compile_error_tokens(messages[i]))
}

/// Whether a path is the one word given.
pub open spec fn is_word_path(path: Seq<Token>, word: Seq<char>) -> bool {
    path == seq![Token::Ident(word)]
}

/// `syn::Error`, opaque here.
#[verifier::external_type_specification]
#[verifier::external_body]
pub struct ExError(syn::Error);

/// `syn::Attribute`, opaque here.
#[verifier::external_type_specification]
#[verifier::external_body]
pub struct ExAttribute(syn::Attribute);

/// `syn::Path`, opaque here.
#[verifier::external_type_specification]
#[verifier::external_body]
pub struct ExPath(syn::Path);

/// `syn::Fields`, opaque here.
#[verifier::external_type_specification]
#[verifier::external_body]
pub struct ExFields(syn::Fields);

/// The messages that an error holds, in order.
pub uninterp spec fn error_messages(error: syn::Error) -> Seq<Seq<char>>;

/// The stretch of the source that the first message of an error points to.
pub uninterp spec fn error_place(error: syn::Error) -> Place;

/// Whether an error points to a place. Nothing is asked where there is none to point to.
pub open spec fn points_to(error: syn::Error, place: Option<Place>) -> bool {
    place matches Some(place) ==> error_place(error) == place
}

/// The tokens of a path, but for a `::` at its end.
pub uninterp spec fn path_key(path: syn::Path) -> Seq<Token>;

/// The tokens that a path is printed as.
pub uninterp spec fn path_tokens(path: syn::Path) -> Seq<Token>;

/// The fields that a list of fields holds, in order.
pub uninterp spec fn fields_list(fields: syn::Fields) -> Seq<FieldView>;

/// The style of a list of fields.
pub uninterp spec fn fields_style(fields: syn::Fields) -> FieldsStyle;

/// The path at the head of an attribute, without a `::` at its end.
pub uninterp spec fn attribute_path(attribute: syn::Attribute) -> Seq<Token>;

/// The item that a stream spells, or the messages of the syntax error in it.
pub uninterp spec fn parsed_input(stream: TokenStream) -> Result<InputView, Seq<Seq<char>>>;

/// `Error::to_compile_error` invokes `compile_error!` once for each message. The tokens point where
/// the error does on the thread that made it, and to the call of the macro on any other; where they
/// point is therefore not stated.
pub assume_specification[ syn::Error::to_compile_error ](error: &syn::Error) -> (stream: TokenStream)
    ensures
        stream_tokens(stream) == compile_errors(error_messages(*error)),
;

/// `Attribute::path` gives the path at the head of the attribute, which is only named.
pub assume_specification[ syn::Attribute::path ](attribute: &syn::Attribute) -> (path: &syn::Path)
    ensures
        path_key(*path) == attribute_path(*attribute),
;

/// `Path::clone` keeps the tokens, and how they are printed.
pub assume_specification[ <syn::Path as Clone>::clone ](path: &syn::Path) -> (copy: syn::Path)
    ensures
        path_key(copy) == path_key(*path),
        path_tokens(copy) == path_tokens(*path),
;

/// `Path::is_ident` holds where the path is one identifier, with no `::` before it and no
/// arguments after it, and that identifier is the given word. A `::` at its end does not count.
#[verifier::external_body]
pub(crate) fn path_is(path: &syn::Path, word: &str) -> (r: bool)
    ensures
        r == is_word_path(path_key(*path), word@),
{
    path.is_ident(word)
}

/// `ToTokens` of a path gives the tokens that it is printed as.
#[verifier::external_body]
pub(crate) fn path_stream(path: &syn::Path) -> (stream: TokenStream)
    ensures
        stream_tokens(stream) == path_tokens(*path),
{
    quote::ToTokens::to_token_stream(path)
}

/// `Error::new_spanned` holds the one message and points to the tokens, from the first to the last.
/// Without tokens it points to the call of the macro, of which nothing is stated.
#[verifier::external_body]
pub(crate) fn error_spanning(tokens: &TokenStream, message: &str) -> (error: syn::Error)
    ensures
        error_messages(error) == seq![message@],
        stream_tokens(*tokens).len() > 0 ==> error_place(error) == stream_place(*tokens),
{
    syn::Error::new_spanned(tokens, message)
}

/// The three variants of `syn::Fields` told apart.
#[verifier::external_body]
pub(crate) fn style_of(fields: &syn::Fields) -> (style: FieldsStyle)
    ensures
        style == fields_style(*fields),
{
    match fields {
        syn::Fields::Named(_) => FieldsStyle::Named,
        syn::Fields::Unnamed(_) => FieldsStyle::Unnamed,
        syn::Fields::Unit => FieldsStyle::Unit,
    }
}

/// `Fields::iter` gives the fields in order; of each it takes the name and the tokens of the type.
#[verifier::external_body]
pub(crate) fn list_of(fields: &syn::Fields) -> (list: Vec<Field>)
    ensures
        list@.map_values(|field: Field| field@) == fields_list(*fields),
{
    let field = |field: &syn::Field| Field {
        ident: field.ident.clone(),
        ty: quote::ToTokens::to_token_stream(&field.ty),
    };
    fields.iter().map(field).collect()
}

/// `syn::parse2` for `syn::DeriveInput` depends on the stream alone. Which item it spells, and
/// what is wrong where it spells none, is only named.
#[verifier::external_body]
pub(crate) fn parse_input(stream: TokenStream) -> (input: Result<Input, syn::Error>)
    ensures
        match input {
            Ok(item) => parsed_input(stream) == Ok::<InputView, Seq<Seq<char>>>(item@),
            Err(error) => parsed_input(stream) == Err::<InputView, Seq<Seq<char>>>(
                error_messages(error),
            ),
        },
{
    let item = syn::parse2::<syn::DeriveInput>(stream)?;
    let tokens = quote::ToTokens::to_token_stream(&item);
    let visibility = quote::ToTokens::to_token_stream(&item.vis);
    let variant = |variant: syn::Variant| Variant {
        tokens: quote::ToTokens::to_token_stream(&variant),
        attributes: variant.attrs, ident: variant.ident, fields: variant.fields,
    };
    let body = match item.data {
        syn::Data::Struct(data) => Body::Struct(data.fields),
        syn::Data::Enum(data) => Body::Enum(data.variants.into_iter().map(variant).collect()),
        syn::Data::Union(_) => Body::Union,
    };
    Ok(Input { attributes: item.attrs, visibility, ident: item.ident, body, tokens })
}

/// Whether one of the attributes has the one word given as its path.
pub open spec fn has_attribute(attributes: Seq<syn::Attribute>, word: Seq<char>) -> bool {
    exists|i: int|
        0 <= i < attributes.len() && is_word_path(attribute_path(#[trigger] attributes[i]), word)
}

/// Whether one of the attributes has the one word given as its path.
pub(crate) fn any_attribute(attributes: &Vec<syn::Attribute>, word: &str) -> (r: bool)
    ensures
        r == has_attribute(attributes@, word@),
{
    let mut i: usize = 0;
    while i < attributes.len()
        invariant
            i <= attributes.len(),
            forall|j: int|
                0 <= j < i ==> !is_word_path(
                    attribute_path(#[trigger] attributes@[j]),
                    word@,
                ),
        decreases attributes.len() - i,
    {
        if path_is(attributes[i].path(), word) {
            return true;
        }
        i = i + 1;
    }
    false
}

} // verus!
